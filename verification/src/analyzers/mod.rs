//! Rules that judge an explain record.
//!
//! A rule is written once, as an [`Analyzer`], and states in `judge` what it
//! concludes of a record. The spec functions of both traits have a body that
//! leaves their value open, so that a rule can also be written in ordinary
//! Rust; a rule that is to be relied on states them.

use crate::domain::{ExplainResult, ExplainResultView};
use std::sync::Arc;
use vstd::prelude::*;

pub mod no_index_match_analyzer;

verus! {

/// What a rule concludes of one record: whether the record passes, and what
/// the rule has to say about it.
pub struct Verdict {
    pub pass: bool,
    pub msg: Option<Seq<char>>,
}

/// Why a rule could not judge a record.
#[derive(Debug)]
pub struct AnalyzerError {
    pub reason: String,
}

/// One verdict as it is handed to the result store: the record judged, the
/// rule's name, and the verdict. The store gives the row its key.
#[derive(Debug)]
pub struct AnalyzerResultRow {
    pub explain_id: String,
    pub name: String,
    pub pass: bool,
    pub msg: Option<String>,
}

/// The mathematical content of an [`AnalyzerResultRow`].
pub struct AnalyzerResultRowView {
    pub explain_id: Seq<char>,
    pub name: Seq<char>,
    pub pass: bool,
    pub msg: Option<Seq<char>>,
}

impl View for AnalyzerResultRow {
    type V = AnalyzerResultRowView;

    open spec fn view(&self) -> AnalyzerResultRowView {
        AnalyzerResultRowView {
            explain_id: self.explain_id@,
            name: self.name@,
            pass: self.pass,
            msg: self.msg.deep_view(),
        }
    }
}

/// The result of one rule on one record.
pub trait AbstractAnalyzeResult {
    /// The name of the rule that gave the result. It belongs to the rule, not
    /// to the record judged, so every result of one rule bears the same name.
    open spec fn rule_name() -> Seq<char> {
        arbitrary()
    }

    /// The id of the record that was judged.
    open spec fn subject(&self) -> Seq<char> {
        arbitrary()
    }

    /// The verdict on the record.
    open spec fn verdict(&self) -> Verdict {
        arbitrary()
    }

    fn name(&self) -> (name: String)
        ensures
            name@ == Self::rule_name(),
    ;

    fn pass(&self) -> (pass: bool)
        ensures
            pass == self.verdict().pass,
    ;

    fn msg(&self) -> (msg: Option<String>)
        ensures
            msg.deep_view() == self.verdict().msg,
    ;
}

/// The row that hands `result` to the result store.
pub open spec fn row_of<R: AbstractAnalyzeResult>(result: R) -> AnalyzerResultRowView {
    AnalyzerResultRowView {
        explain_id: result.subject(),
        name: R::rule_name(),
        pass: result.verdict().pass,
        msg: result.verdict().msg,
    }
}

/// A rule over explain records.
pub trait Analyzer {
    /// What the rule hands out for a record.
    type Output: AbstractAnalyzeResult;

    /// What the rule concludes of a record, or `None` where it cannot judge
    /// it. The conclusion depends on the record alone.
    open spec fn judge(&self, data: ExplainResultView) -> Option<Verdict> {
        arbitrary()
    }

    /// The reason that the rule gives where it cannot judge a record. Like
    /// the conclusion, it depends on the record alone.
    open spec fn refusal(&self, data: ExplainResultView) -> Seq<char> {
        arbitrary()
    }

    /// Judges a record, and writes the verdict out as the row for the result
    /// store. Where the rule cannot judge the record, its reason is handed on
    /// and no row is made.
    fn process(&self, data: Arc<ExplainResult>) -> (row: Result<AnalyzerResultRow, AnalyzerError>)
        ensures
            row is Ok <==> self.judge(data@) is Some,
            row matches Err(e) ==> e.reason@ == self.refusal(data@),
            row matches Ok(r) ==> r@ == (AnalyzerResultRowView {
                explain_id: data@.id,
                name: Self::Output::rule_name(),
                pass: self.judge(data@).unwrap().pass,
                msg: self.judge(data@).unwrap().msg,
            }),
    {
        match self.analyse(data) {
            Ok(result) => Ok(self.store(result)),
            Err(e) => Err(e),
        }
    }

    /// Judges a record.
    fn analyse(&self, data: Arc<ExplainResult>) -> (result: Result<Self::Output, AnalyzerError>)
        ensures
            result is Ok <==> self.judge(data@) is Some,
            result matches Err(e) ==> e.reason@ == self.refusal(data@),
            result matches Ok(r) ==> r.subject() == data@.id && Some(r.verdict()) == self.judge(
                data@,
            ),
    ;

    /// Writes a result out as the row that the result store is to append.
    fn store(&self, analysis_result: Self::Output) -> (row: AnalyzerResultRow)
        ensures
            row@ == row_of(analysis_result),
    ;
}

} // verus!
