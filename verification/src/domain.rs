//! The records that the pipeline produces and the rows it reads.

use vstd::prelude::*;

verus! {

/// One row of the planner's answer to `EXPLAIN`, as the source returned it.
#[derive(Debug)]
pub struct PlanRow {
    pub explain_id: i64,
    pub select_type: String,
    pub table: String,
    pub partitions: Option<String>,
    pub _type: String,
    pub possible_keys: Option<String>,
    pub key: Option<String>,
    pub key_len: Option<i64>,
    pub _ref: Option<String>,
    pub rows: Option<i64>,
    /// The filtered ratio, held as the bit pattern of the planner's 64-bit float.
    pub filtered: Option<u64>,
    pub extra: Option<String>,
}

/// The mathematical content of a [`PlanRow`].
pub struct PlanRowView {
    pub explain_id: i64,
    pub select_type: Seq<char>,
    pub table: Seq<char>,
    pub partitions: Option<Seq<char>>,
    pub _type: Seq<char>,
    pub possible_keys: Option<Seq<char>>,
    pub key: Option<Seq<char>>,
    pub key_len: Option<i64>,
    pub _ref: Option<Seq<char>>,
    pub rows: Option<i64>,
    pub filtered: Option<u64>,
    pub extra: Option<Seq<char>>,
}

impl View for PlanRow {
    type V = PlanRowView;

    open spec fn view(&self) -> PlanRowView {
        PlanRowView {
            explain_id: self.explain_id,
            select_type: self.select_type@,
            table: self.table@,
            partitions: self.partitions.deep_view(),
            _type: self._type@,
            possible_keys: self.possible_keys.deep_view(),
            key: self.key.deep_view(),
            key_len: self.key_len,
            _ref: self._ref.deep_view(),
            rows: self.rows,
            filtered: self.filtered,
            extra: self.extra.deep_view(),
        }
    }
}

/// The explanation captured for one statement: the planner's row together
/// with the statement, the transaction it ran in and the time of capture.
#[derive(Debug)]
pub struct ExplainResult {
    pub id: String,
    /// The statement as it was observed, trimmed.
    pub query: String,
    /// The open transaction of the statement's session, if it had one.
    pub txn_uuid: Option<String>,
    pub explain_id: i64,
    pub select_type: String,
    pub table: String,
    pub partitions: Option<String>,
    pub _type: String,
    pub possible_keys: Option<String>,
    pub key: Option<String>,
    pub key_len: Option<i64>,
    pub _ref: Option<String>,
    pub rows: Option<i64>,
    /// The filtered ratio, held as the bit pattern of the planner's 64-bit float.
    pub filtered: Option<u64>,
    pub extra: Option<String>,
    /// Milliseconds since the epoch at capture.
    pub record_time: i64,
}

/// The mathematical content of an [`ExplainResult`].
pub struct ExplainResultView {
    pub id: Seq<char>,
    pub query: Seq<char>,
    pub txn_uuid: Option<Seq<char>>,
    pub plan: PlanRowView,
    pub record_time: i64,
}

impl View for ExplainResult {
    type V = ExplainResultView;

    open spec fn view(&self) -> ExplainResultView {
        ExplainResultView {
            id: self.id@,
            query: self.query@,
            txn_uuid: self.txn_uuid.deep_view(),
            plan: PlanRowView {
                explain_id: self.explain_id,
                select_type: self.select_type@,
                table: self.table@,
                partitions: self.partitions.deep_view(),
                _type: self._type@,
                possible_keys: self.possible_keys.deep_view(),
                key: self.key.deep_view(),
                key_len: self.key_len,
                _ref: self._ref.deep_view(),
                rows: self.rows,
                filtered: self.filtered,
                extra: self.extra.deep_view(),
            },
            record_time: self.record_time,
        }
    }
}

/// One stored verdict of one rule on one explain record.
#[derive(Debug)]
pub struct AnalyseResult {
    /// The key that the result store gave the row.
    pub id: i32,
    pub explain_id: String,
    pub name: String,
    pub pass: bool,
    pub msg: Option<String>,
}

/// The mathematical content of an [`AnalyseResult`].
pub struct AnalyseResultView {
    pub id: i32,
    pub explain_id: Seq<char>,
    pub name: Seq<char>,
    pub pass: bool,
    pub msg: Option<Seq<char>>,
}

impl View for AnalyseResult {
    type V = AnalyseResultView;

    open spec fn view(&self) -> AnalyseResultView {
        AnalyseResultView {
            id: self.id,
            explain_id: self.explain_id@,
            name: self.name@,
            pass: self.pass,
            msg: self.msg.deep_view(),
        }
    }
}

/// A copy of an optional text.
pub fn copy_text(text: &Option<String>) -> (copy: Option<String>)
    ensures
        copy.deep_view() == text.deep_view(),
{
    match text {
        Some(t) => Some(t.clone()),
        None => None,
    }
}

} // verus!
