//! The decisions of the listener that follows the replication stream: what to
//! do with each event, and what becomes of the planner's answer.
//!
//! The caller owns the connections. It hands each event to
//! [`BinlogListener::on_event`], runs the `EXPLAIN` that a
//! [`Step::Explain`] asks for, and hands the answer to
//! [`BinlogListener::on_explained`].

use crate::domain::{ExplainResult, ExplainResultView, PlanRow, PlanRowView};
use crate::statement::{classify, observe, Observed, ObservedView, ReplicationEvent};
use crate::token::{fresh_id, hyphenated, id_text, is_random_id};
use crate::tracker::{tag, track, TransactionTracker};
use vstd::prelude::*;
use vstd::string::StringExecFns;

verus! {

/// A statement that is to be explained.
#[derive(Debug)]
pub struct ExplainRequest {
    /// The session that ran the statement.
    pub session_id: u32,
    /// The statement, trimmed.
    pub query: String,
    /// The statement that asks the planner for its plan of `query`.
    pub explain_sql: String,
    /// The transaction that the session had open, if it had one.
    pub txn: Option<u128>,
}

/// The mathematical content of an [`ExplainRequest`].
pub struct ExplainRequestView {
    pub session_id: u32,
    pub query: Seq<char>,
    pub explain_sql: Seq<char>,
    pub txn: Option<u128>,
}

impl View for ExplainRequest {
    type V = ExplainRequestView;

    open spec fn view(&self) -> ExplainRequestView {
        ExplainRequestView {
            session_id: self.session_id,
            query: self.query@,
            explain_sql: self.explain_sql@,
            txn: self.txn,
        }
    }
}

/// What the listener did with one event, and what it asks of the caller.
#[derive(Debug)]
pub enum Step {
    /// The event carried no statement; nothing was done.
    Skipped,
    /// The session opened transaction `txn`.
    Opened { session_id: u32, txn: u128 },
    /// The session closed its transaction.
    Closed { session_id: u32 },
    /// The caller is to run `explain_sql` and hand back the answer.
    Explain(ExplainRequest),
}

/// The mathematical content of a [`Step`].
pub enum StepView {
    Skipped,
    Opened { session_id: u32, txn: u128 },
    Closed { session_id: u32 },
    Explain(ExplainRequestView),
}

impl View for Step {
    type V = StepView;

    open spec fn view(&self) -> StepView {
        match self {
            Step::Skipped => StepView::Skipped,
            Step::Opened { session_id, txn } => StepView::Opened {
                session_id: *session_id,
                txn: *txn,
            },
            Step::Closed { session_id } => StepView::Closed { session_id: *session_id },
            Step::Explain(request) => StepView::Explain(request@),
        }
    }
}

/// The statement that asks the planner for its plan of `query`.
pub open spec fn explain_statement(query: Seq<char>) -> Seq<char> {
    "EXPLAIN "@ + query
}

/// What the listener answers to an observation while the transactions `open`
/// are open.
pub open spec fn answer(open: Map<u32, u128>, observed: ObservedView, txn: u128) -> StepView {
    match observed {
        ObservedView::Skipped => StepView::Skipped,
        ObservedView::Begin { session_id } => StepView::Opened { session_id, txn },
        ObservedView::Commit { session_id } => StepView::Closed { session_id },
        ObservedView::Statement { session_id, query } => StepView::Explain(
            ExplainRequestView {
                session_id,
                query,
                explain_sql: explain_statement(query),
                txn: tag(open, session_id),
            },
        ),
    }
}

/// The transaction that a step opened; of any other step, zero.
pub open spec fn opened_by(step: StepView) -> u128 {
    match step {
        StepView::Opened { txn, .. } => txn,
        _ => 0,
    }
}

/// The record that a request and the planner's row make under the id `id`
/// at the time `now`.
pub open spec fn record_of(
    request: ExplainRequestView,
    row: PlanRowView,
    id: u128,
    now: i64,
) -> ExplainResultView {
    ExplainResultView {
        id: id_text(id),
        query: request.query,
        txn_uuid: match request.txn {
            Some(txn) => Some(id_text(txn)),
            None => None,
        },
        plan: row,
        record_time: now,
    }
}

/// Why a statement left no record.
#[derive(Debug)]
pub enum CaptureError {
    /// The planner's answer could not be had: the statement was refused or
    /// the connection failed.
    ExplainFailed { reason: String },
    /// The planner answered without a row.
    NoPlanRow,
}

/// What becomes of a request once the planner has answered: a record made of
/// the first row, or the reason why there is none.
pub open spec fn captured(
    request: ExplainRequestView,
    answer: Result<Seq<PlanRowView>, Seq<char>>,
    id: u128,
    now: i64,
    result: Result<ExplainResultView, CaptureError>,
) -> bool {
    match answer {
        Ok(rows) => if rows.len() > 0 {
            result == Ok::<ExplainResultView, CaptureError>(record_of(request, rows[0], id, now))
        } else {
            result == Err::<ExplainResultView, CaptureError>(CaptureError::NoPlanRow)
        },
        Err(reason) => {
            result matches Err(CaptureError::ExplainFailed { reason: r }) && r@ == reason
        },
    }
}

/// The rows of an answer, or its reason, as mathematical values.
pub open spec fn answer_view(answer: Result<Vec<PlanRow>, String>) -> Result<
    Seq<PlanRowView>,
    Seq<char>,
> {
    match answer {
        Ok(rows) => Ok(rows@.map_values(|row: PlanRow| row@)),
        Err(reason) => Err(reason@),
    }
}

/// The result of a capture with its record as a mathematical value.
pub open spec fn result_view(result: Result<ExplainResult, CaptureError>) -> Result<
    ExplainResultView,
    CaptureError,
> {
    match result {
        Ok(record) => Ok(record@),
        Err(e) => Err(e),
    }
}

/// Makes the record for `request` from the planner's answer, under the id
/// `id` and with `now` as the time of capture. Of several rows the first is
/// taken. An answer without a row, and a failed `EXPLAIN`, leave no record.
pub fn capture(
    request: ExplainRequest,
    answer: Result<Vec<PlanRow>, String>,
    id: u128,
    now: i64,
) -> (result: Result<ExplainResult, CaptureError>)
    ensures
        captured(request@, answer_view(answer), id, now, result_view(result)),
{
    match answer {
        Ok(rows) => {
            let mut rows = rows;
            if rows.len() == 0 {
                Err(CaptureError::NoPlanRow)
            } else {
                let ghost first = rows@[0];
                let row = rows.swap_remove(0);
                assert(row == first);
                let txn_uuid = match request.txn {
                    Some(txn) => Some(hyphenated(txn)),
                    None => None,
                };
                let record = ExplainResult {
                    id: hyphenated(id),
                    query: request.query,
                    txn_uuid,
                    explain_id: row.explain_id,
                    select_type: row.select_type,
                    table: row.table,
                    partitions: row.partitions,
                    _type: row._type,
                    possible_keys: row.possible_keys,
                    key: row.key,
                    key_len: row.key_len,
                    _ref: row._ref,
                    rows: row.rows,
                    filtered: row.filtered,
                    extra: row.extra,
                    record_time: now,
                };
                assert(record@ == record_of(request@, first@, id, now));
                Ok(record)
            }
        },
        Err(reason) => Err(CaptureError::ExplainFailed { reason }),
    }
}

/// The listener's state: which transaction each session has open.
pub struct BinlogListener {
    tracker: TransactionTracker,
}

impl View for BinlogListener {
    type V = Map<u32, u128>;

    closed spec fn view(&self) -> Map<u32, u128> {
        self.tracker@
    }
}

impl BinlogListener {
    /// A listener that has seen no event: no session has a transaction open.
    pub fn new() -> (listener: Self)
        ensures
            listener@ == Map::<u32, u128>::empty(),
    {
        BinlogListener { tracker: TransactionTracker::new() }
    }

    /// The transaction that `session_id` has open, if it has one.
    pub fn open_transaction(&self, session_id: u32) -> (txn: Option<u128>)
        ensures
            txn == tag(self@, session_id),
    {
        self.tracker.lookup(session_id)
    }

    /// Takes one observation, with `txn` as the transaction to open should
    /// the observation be a `BEGIN`.
    pub fn apply(&mut self, observed: Observed, txn: u128) -> (step: Step)
        ensures
            final(self)@ == track(old(self)@, observed@, txn),
            step@ == answer(old(self)@, observed@, txn),
    {
        match observed {
            Observed::Skipped => Step::Skipped,
            Observed::Begin { session_id } => {
                self.tracker.begin(session_id, txn);
                Step::Opened { session_id, txn }
            },
            Observed::Commit { session_id } => {
                self.tracker.commit(session_id);
                Step::Closed { session_id }
            },
            Observed::Statement { session_id, query } => {
                let explain_sql = String::from_str("EXPLAIN ").concat(query.as_str());
                let txn = self.tracker.lookup(session_id);
                Step::Explain(
                    ExplainRequest { session_id, query, explain_sql, txn },
                )
            },
        }
    }

    /// Takes one event of the stream. A `BEGIN` opens a transaction under an
    /// identifier drawn at random; everything else is decided by the event
    /// and the open transactions alone.
    pub fn on_event(&mut self, event: &ReplicationEvent) -> (step: Step)
        ensures
            final(self)@ == track(old(self)@, observe(event@), opened_by(step@)),
            step@ == answer(old(self)@, observe(event@), opened_by(step@)),
            step matches Step::Opened { txn, .. } ==> is_random_id(txn),
    {
        let observed = classify(event);
        let txn = match observed {
            Observed::Begin { .. } => fresh_id(),
            _ => 0,
        };
        self.apply(observed, txn)
    }

    /// Takes the planner's answer to a request, with `now` as the time of
    /// capture. A record gets an identifier drawn at random.
    pub fn on_explained(
        request: ExplainRequest,
        answer: Result<Vec<PlanRow>, String>,
        now: i64,
    ) -> (result: Result<ExplainResult, CaptureError>)
        ensures
            exists|id: u128|
                is_random_id(id) && #[trigger] captured(
                    request@,
                    answer_view(answer),
                    id,
                    now,
                    result_view(result),
                ),
    {
        let id = fresh_id();
        capture(request, answer, id, now)
    }
}

} // verus!
