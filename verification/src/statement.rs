//! What the pipeline reads off one replication event: whether it opens a
//! transaction, closes one, carries a statement to explain, or is passed over.

use vstd::prelude::*;

verus! {

/// Whether `c` has the Unicode property `White_Space`.
pub open spec fn is_whitespace(c: char) -> bool {
    let n = c as u32;
    ||| 0x09 <= n <= 0x0D
    ||| n == 0x20
    ||| n == 0x85
    ||| n == 0xA0
    ||| n == 0x1680
    ||| 0x2000 <= n <= 0x200A
    ||| n == 0x2028
    ||| n == 0x2029
    ||| n == 0x202F
    ||| n == 0x205F
    ||| n == 0x3000
}

/// `s` without its leading whitespace.
pub open spec fn trim_start(s: Seq<char>) -> Seq<char>
    decreases s.len(),
{
    if s.len() > 0 && is_whitespace(s.first()) {
        trim_start(s.drop_first())
    } else {
        s
    }
}

/// `s` without its trailing whitespace.
pub open spec fn trim_end(s: Seq<char>) -> Seq<char>
    decreases s.len(),
{
    if s.len() > 0 && is_whitespace(s.last()) {
        trim_end(s.drop_last())
    } else {
        s
    }
}

/// `s` without its leading and trailing whitespace.
pub open spec fn trimmed(s: Seq<char>) -> Seq<char> {
    trim_end(trim_start(s))
}

/// `str::trim` of std returns the slice between the first and the last
/// character that is not whitespace, where whitespace is what the Unicode
/// property `White_Space` names.
pub assume_specification[ str::trim ](s: &str) -> (t: &str)
    ensures
        t@ == trimmed(s@),
;

/// `==` on string slices holds exactly of slices with the same characters.
pub assume_specification[ <str as PartialEq>::eq ](a: &str, b: &str) -> (same: bool)
    ensures
        same == (a@ == b@),
;

/// The text that opens a transaction.
pub open spec fn begin_marker() -> Seq<char> {
    "BEGIN"@
}

/// The text that closes a transaction.
pub open spec fn commit_marker() -> Seq<char> {
    "COMMIT"@
}

/// One event of the replication stream, reduced to what the pipeline reads.
#[derive(Debug)]
pub enum ReplicationEvent {
    /// A statement that a session ran.
    QueryStatement { session_id: u32, raw_text: String, start_time: u32 },
    /// A change of rows; the pipeline passes over it.
    RowMutation,
    /// Any other event; the pipeline passes over it.
    Other,
}

/// The mathematical content of a [`ReplicationEvent`].
pub enum ReplicationEventView {
    QueryStatement { session_id: u32, raw_text: Seq<char>, start_time: u32 },
    RowMutation,
    Other,
}

impl View for ReplicationEvent {
    type V = ReplicationEventView;

    open spec fn view(&self) -> ReplicationEventView {
        match self {
            ReplicationEvent::QueryStatement { session_id, raw_text, start_time } => {
                ReplicationEventView::QueryStatement {
                    session_id: *session_id,
                    raw_text: raw_text@,
                    start_time: *start_time,
                }
            },
            ReplicationEvent::RowMutation => ReplicationEventView::RowMutation,
            ReplicationEvent::Other => ReplicationEventView::Other,
        }
    }
}

/// What one event means to the pipeline.
#[derive(Debug)]
pub enum Observed {
    /// Nothing: the event carries no statement.
    Skipped,
    /// The session opens a transaction.
    Begin { session_id: u32 },
    /// The session closes its transaction.
    Commit { session_id: u32 },
    /// The session ran `query`, which is to be explained.
    Statement { session_id: u32, query: String },
}

/// The mathematical content of an [`Observed`].
pub enum ObservedView {
    Skipped,
    Begin { session_id: u32 },
    Commit { session_id: u32 },
    Statement { session_id: u32, query: Seq<char> },
}

impl View for Observed {
    type V = ObservedView;

    open spec fn view(&self) -> ObservedView {
        match self {
            Observed::Skipped => ObservedView::Skipped,
            Observed::Begin { session_id } => ObservedView::Begin { session_id: *session_id },
            Observed::Commit { session_id } => ObservedView::Commit { session_id: *session_id },
            Observed::Statement { session_id, query } => ObservedView::Statement {
                session_id: *session_id,
                query: query@,
            },
        }
    }
}

/// The meaning of an event: a statement whose trimmed text is exactly
/// `BEGIN` or `COMMIT` is a transaction marker, any other statement is to be
/// explained under its trimmed text, and an event without a statement is
/// passed over. `ROLLBACK` is no marker: it is explained like any other
/// statement and leaves the session's transaction open.
pub open spec fn observe(event: ReplicationEventView) -> ObservedView {
    match event {
        ReplicationEventView::QueryStatement { session_id, raw_text, start_time } => {
            let text = trimmed(raw_text);
            if text == begin_marker() {
                ObservedView::Begin { session_id }
            } else if text == commit_marker() {
                ObservedView::Commit { session_id }
            } else {
                ObservedView::Statement { session_id, query: text }
            }
        },
        _ => ObservedView::Skipped,
    }
}

/// Reads off an event what it means to the pipeline.
pub fn classify(event: &ReplicationEvent) -> (observed: Observed)
    ensures
        observed@ == observe(event@),
{
    match event {
        ReplicationEvent::QueryStatement { session_id, raw_text, start_time } => {
            let text = raw_text.as_str().trim();
            if text.eq("BEGIN") {
                Observed::Begin { session_id: *session_id }
            } else if text.eq("COMMIT") {
                Observed::Commit { session_id: *session_id }
            } else {
                Observed::Statement { session_id: *session_id, query: text.to_owned() }
            }
        },
        _ => Observed::Skipped,
    }
}

} // verus!
