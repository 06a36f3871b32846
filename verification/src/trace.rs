//! What holds of whole runs of the listener: a run is the sequence of events
//! it was given, each with what the outside world supplied at that moment.

use crate::domain::{ExplainResultView, PlanRowView};
use crate::listener::{answer, captured, record_of, CaptureError, StepView};
use crate::statement::{observe, trimmed, ObservedView, ReplicationEventView};
use crate::token::{id_text, law_text_tells_identifiers_apart};
use crate::tracker::{tag, track};
use vstd::prelude::*;

verus! {

/// One moment of a run: the event, and what was supplied from outside when
/// it was handled.
pub struct Moment {
    pub event: ReplicationEventView,
    /// The identifier drawn for a transaction, used if the event opens one.
    pub txn: u128,
    /// The planner's answer, used if the event carries a statement.
    pub answer: Result<Seq<PlanRowView>, Seq<char>>,
    /// The identifier drawn for a record, used if the event leaves one.
    pub id: u128,
    /// The clock's reading at capture, used if the event leaves a record.
    pub now: i64,
}

/// Whether an observation opens or closes a transaction of `session_id`.
pub open spec fn marks(observed: ObservedView, session_id: u32) -> bool {
    observed == (ObservedView::Begin { session_id }) || observed == (ObservedView::Commit {
        session_id,
    })
}

/// Whether an observation is a statement of `session_id`.
pub open spec fn states(observed: ObservedView, session_id: u32) -> bool {
    observed matches ObservedView::Statement { session_id: s, .. } && s == session_id
}

/// The open transactions once the first `n` moments of a run are handled.
pub open spec fn open_after(open: Map<u32, u128>, run: Seq<Moment>, n: nat) -> Map<u32, u128>
    decreases n,
{
    if n == 0 {
        open
    } else {
        track(open_after(open, run, (n - 1) as nat), observe(run[n - 1].event), run[n - 1].txn)
    }
}

/// The listener's step at moment `j` of a run.
pub open spec fn step_at(open: Map<u32, u128>, run: Seq<Moment>, j: int) -> StepView {
    answer(open_after(open, run, j as nat), observe(run[j].event), run[j].txn)
}

/// The record that moment `j` of a run leaves, if it leaves one.
pub open spec fn record_at(open: Map<u32, u128>, run: Seq<Moment>, j: int) -> Option<
    ExplainResultView,
> {
    match (step_at(open, run, j), run[j].answer) {
        (StepView::Explain(request), Ok(rows)) => if rows.len() > 0 {
            Some(record_of(request, rows[0], run[j].id, run[j].now))
        } else {
            None
        },
        _ => None,
    }
}

/// Whether moment `j` of a run carries a statement that the planner explained.
pub open spec fn explained_at(run: Seq<Moment>, j: int) -> bool {
    &&& observe(run[j].event) is Statement
    &&& run[j].answer matches Ok(rows) && rows.len() > 0
}

/// The number of records that the first `n` moments of a run leave.
pub open spec fn records_after(open: Map<u32, u128>, run: Seq<Moment>, n: nat) -> nat
    decreases n,
{
    if n == 0 {
        0
    } else {
        records_after(open, run, (n - 1) as nat) + if record_at(open, run, n - 1) is Some {
            1nat
        } else {
            0nat
        }
    }
}

/// The number of statements among the first `n` moments of a run that the
/// planner explained.
pub open spec fn explained_after(run: Seq<Moment>, n: nat) -> nat
    decreases n,
{
    if n == 0 {
        0
    } else {
        explained_after(run, (n - 1) as nat) + if explained_at(run, n - 1) {
            1nat
        } else {
            0nat
        }
    }
}

/// A capture leaves a record exactly where the run's model says so, and it
/// is that record.
pub proof fn law_capture_follows_the_run(
    open: Map<u32, u128>,
    run: Seq<Moment>,
    j: int,
    result: Result<ExplainResultView, CaptureError>,
)
    requires
        0 <= j < run.len(),
        step_at(open, run, j) matches StepView::Explain(request) && captured(
            request,
            run[j].answer,
            run[j].id,
            run[j].now,
            result,
        ),
    ensures
        result is Ok <==> record_at(open, run, j) is Some,
        result matches Ok(record) ==> record_at(open, run, j) == Some(record),
{
}

/// From a session's `BEGIN` on, and as long as the session neither begins
/// nor commits again, the session's open transaction is the one that the
/// `BEGIN` opened.
pub proof fn lemma_open_since_begin(
    open: Map<u32, u128>,
    run: Seq<Moment>,
    session_id: u32,
    b: int,
    j: int,
)
    requires
        0 <= b < j <= run.len(),
        observe(run[b].event) == (ObservedView::Begin { session_id }),
        forall|k: int| b < k < j ==> !marks(observe(#[trigger] run[k].event), session_id),
    ensures
        tag(open_after(open, run, j as nat), session_id) == Some(run[b].txn),
    decreases j - b,
{
    if j > b + 1 {
        lemma_open_since_begin(open, run, session_id, b, j - 1);
        assert(!marks(observe(run[j - 1].event), session_id));
    }
}

/// From a session's `COMMIT` on, and as long as the session does not begin
/// again, the session has no transaction open.
pub proof fn lemma_closed_since_commit(
    open: Map<u32, u128>,
    run: Seq<Moment>,
    session_id: u32,
    c: int,
    j: int,
)
    requires
        0 <= c < j <= run.len(),
        observe(run[c].event) == (ObservedView::Commit { session_id }),
        forall|k: int|
            c < k < j ==> observe(#[trigger] run[k].event) != (ObservedView::Begin { session_id }),
    ensures
        tag(open_after(open, run, j as nat), session_id) == None::<u128>,
    decreases j - c,
{
    if j > c + 1 {
        lemma_closed_since_commit(open, run, session_id, c, j - 1);
        assert(observe(run[j - 1].event) != (ObservedView::Begin { session_id }));
    }
}

/// As long as a session that had no transaction open does not begin one, it
/// has none open.
pub proof fn lemma_closed_until_begin(
    open: Map<u32, u128>,
    run: Seq<Moment>,
    session_id: u32,
    j: int,
)
    requires
        0 <= j <= run.len(),
        !open.contains_key(session_id),
        forall|k: int|
            0 <= k < j ==> observe(#[trigger] run[k].event) != (ObservedView::Begin { session_id }),
    ensures
        tag(open_after(open, run, j as nat), session_id) == None::<u128>,
    decreases j,
{
    if j > 0 {
        lemma_closed_until_begin(open, run, session_id, j - 1);
        assert(observe(run[j - 1].event) != (ObservedView::Begin { session_id }));
    }
}

/// Every statement that a session runs after its `BEGIN` and before it
/// begins or commits again is explained under the transaction that the
/// `BEGIN` opened, and the record it leaves bears that transaction's text.
pub proof fn law_statements_inside_a_transaction(
    open: Map<u32, u128>,
    run: Seq<Moment>,
    session_id: u32,
    b: int,
    j: int,
)
    requires
        0 <= b < j < run.len(),
        observe(run[b].event) == (ObservedView::Begin { session_id }),
        forall|k: int| b < k < j ==> !marks(observe(#[trigger] run[k].event), session_id),
        states(observe(run[j].event), session_id),
    ensures
        step_at(open, run, j) matches StepView::Explain(request) && request.txn == Some(
            run[b].txn,
        ),
        record_at(open, run, j) matches Some(record) ==> record.txn_uuid == Some(
            id_text(run[b].txn),
        ),
{
    lemma_open_since_begin(open, run, session_id, b, j);
}

/// Every statement that a session runs outside a transaction, that is after
/// its `COMMIT` and before it begins again, or before its first `BEGIN` in a
/// run that started with no transaction open for it, is explained under no
/// transaction, and the record it leaves bears none.
pub proof fn law_statements_outside_a_transaction(
    open: Map<u32, u128>,
    run: Seq<Moment>,
    session_id: u32,
    c: int,
    j: int,
)
    requires
        -1 <= c < j < run.len(),
        c >= 0 ==> observe(run[c].event) == (ObservedView::Commit { session_id }),
        c == -1 ==> !open.contains_key(session_id),
        forall|k: int|
            c < k < j ==> observe(#[trigger] run[k].event) != (ObservedView::Begin { session_id }),
        states(observe(run[j].event), session_id),
    ensures
        step_at(open, run, j) matches StepView::Explain(request) && request.txn == None::<u128>,
        record_at(open, run, j) matches Some(record) ==> record.txn_uuid == None::<Seq<char>>,
{
    if c >= 0 {
        lemma_closed_since_commit(open, run, session_id, c, j);
    } else {
        lemma_closed_until_begin(open, run, session_id, j);
    }
}

/// A moment leaves at most one record, and it leaves one exactly where it
/// carries a statement, other than `BEGIN` and `COMMIT`, that the planner
/// explained.
pub proof fn law_one_record_per_explained_statement(open: Map<u32, u128>, run: Seq<Moment>, j: int)
    requires
        0 <= j < run.len(),
    ensures
        record_at(open, run, j) is Some <==> explained_at(run, j),
        observe(run[j].event) is Begin || observe(run[j].event) is Commit ==> record_at(
            open,
            run,
            j,
        ) is None,
{
}

/// A run leaves as many records as it holds statements that the planner
/// explained.
pub proof fn law_records_count_explained_statements(open: Map<u32, u128>, run: Seq<Moment>, n: nat)
    requires
        n <= run.len(),
    ensures
        records_after(open, run, n) == explained_after(run, n),
    decreases n,
{
    if n > 0 {
        law_records_count_explained_statements(open, run, (n - 1) as nat);
        law_one_record_per_explained_statement(open, run, n - 1);
    }
}

/// The record that a moment leaves bears the moment's statement, trimmed,
/// the first row of the planner's answer, and the identifier and the time
/// that were supplied at that moment.
pub proof fn law_record_bears_the_statement(open: Map<u32, u128>, run: Seq<Moment>, j: int)
    requires
        0 <= j < run.len(),
        record_at(open, run, j) is Some,
    ensures
        run[j].event matches ReplicationEventView::QueryStatement { raw_text, .. }
            && record_at(open, run, j).unwrap().query == trimmed(raw_text),
        run[j].answer matches Ok(rows) && rows.len() > 0 && record_at(open, run, j).unwrap().plan
            == rows[0],
        record_at(open, run, j).unwrap().id == id_text(run[j].id),
        record_at(open, run, j).unwrap().record_time == run[j].now,
{
}

/// Two records bear different identifiers wherever the identifiers drawn
/// for them differ.
pub proof fn law_records_differ_where_draws_differ(
    open: Map<u32, u128>,
    run: Seq<Moment>,
    i: int,
    j: int,
)
    requires
        0 <= i < run.len(),
        0 <= j < run.len(),
        record_at(open, run, i) is Some,
        record_at(open, run, j) is Some,
        run[i].id != run[j].id,
    ensures
        record_at(open, run, i).unwrap().id != record_at(open, run, j).unwrap().id,
{
    if id_text(run[i].id) == id_text(run[j].id) {
        law_text_tells_identifiers_apart(run[i].id, run[j].id);
    }
}

} // verus!
