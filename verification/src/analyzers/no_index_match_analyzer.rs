//! The rule that a statement which changes or removes rows must use an index.

use crate::analyzers::{AbstractAnalyzeResult, Analyzer, AnalyzerError, AnalyzerResultRow, Verdict};
use crate::domain::{copy_text, ExplainResult, ExplainResultView};
use std::sync::Arc;
use vstd::prelude::*;
use vstd::string::StringExecFns;

verus! {

/// The rule: an `UPDATE` or a `DELETE` passes only where the planner used an
/// index; any other statement passes.
pub struct NoIndexMatchAnalyzer;

/// The verdict for one record.
pub struct NoIndexMatchResult {
    pass: bool,
    explain_id: String,
    matched_key: Option<String>,
}

/// The name under which the rule's verdicts are stored.
pub open spec fn no_index_match_name() -> Seq<char> {
    "No Index Match Analyzer"@
}

/// What the rule says of a record that fails.
pub open spec fn no_index_match_diagnostic() -> Seq<char> {
    "explain result shows that no index is matched"@
}

/// Whether the rule applies to a statement of this kind.
pub open spec fn changes_rows(select_type: Seq<char>) -> bool {
    select_type == "UPDATE"@ || select_type == "DELETE"@
}

/// The rule's verdict on a record.
pub open spec fn no_index_match_verdict(data: ExplainResultView) -> Verdict {
    let pass = changes_rows(data.plan.select_type) ==> data.plan.key is Some;
    Verdict { pass, msg: if pass { None } else { Some(no_index_match_diagnostic()) } }
}

/// The rule has something to say of a record exactly where the record fails,
/// and a record of a statement that neither updates nor deletes passes.
pub proof fn law_no_index_match_speaks_of_failures(data: ExplainResultView)
    ensures
        no_index_match_verdict(data).msg is Some <==> !no_index_match_verdict(data).pass,
        !changes_rows(data.plan.select_type) ==> no_index_match_verdict(data).pass,
        changes_rows(data.plan.select_type) ==> no_index_match_verdict(data).pass
            == data.plan.key is Some,
{
}

/// Every verdict of the rule, however it was come by, has something to say
/// exactly where it fails, and what it says is the rule's one diagnostic.
pub proof fn law_no_index_match_result_speaks_of_failures(result: NoIndexMatchResult)
    ensures
        result.verdict().msg is None <==> result.verdict().pass,
        result.verdict().msg matches Some(text) ==> text == no_index_match_diagnostic(),
{
}

impl NoIndexMatchResult {
    /// The index that the planner used, if it used one.
    pub closed spec fn used_index(&self) -> Option<Seq<char>> {
        self.matched_key.deep_view()
    }
}

impl Analyzer for NoIndexMatchAnalyzer {
    type Output = NoIndexMatchResult;

    open spec fn judge(&self, data: ExplainResultView) -> Option<Verdict> {
        Some(no_index_match_verdict(data))
    }

    fn analyse(&self, data: Arc<ExplainResult>) -> (result: Result<Self::Output, AnalyzerError>)
        ensures
            result matches Ok(r) && r.used_index() == data@.plan.key,
    {
        let pass = if data.select_type.as_str().eq("UPDATE") || data.select_type.as_str().eq(
            "DELETE",
        ) {
            data.key.is_some()
        } else {
            true
        };

        let result = NoIndexMatchResult {
            pass,
            explain_id: data.id.clone(),
            matched_key: copy_text(&data.key),
        };
        assert(result.subject() == data@.id);
        assert(Some(result.verdict()) == self.judge(data@));
        Ok(result)
    }

    fn store(&self, analysis_result: Self::Output) -> (row: AnalyzerResultRow) {
        let name = analysis_result.name();
        let msg = analysis_result.msg();
        let pass = analysis_result.pass();
        AnalyzerResultRow { explain_id: analysis_result.explain_id, name, pass, msg }
    }
}

impl AbstractAnalyzeResult for NoIndexMatchResult {
    open spec fn rule_name() -> Seq<char> {
        no_index_match_name()
    }

    closed spec fn subject(&self) -> Seq<char> {
        self.explain_id@
    }

    closed spec fn verdict(&self) -> Verdict {
        Verdict {
            pass: self.pass,
            msg: if self.pass {
                None
            } else {
                Some(no_index_match_diagnostic())
            },
        }
    }

    fn name(&self) -> (name: String) {
        assert(Self::rule_name() == no_index_match_name());
        String::from_str("No Index Match Analyzer")
    }

    fn pass(&self) -> (pass: bool) {
        assert(self.verdict().pass == self.pass);
        self.pass
    }

    fn msg(&self) -> (msg: Option<String>)
        ensures
            msg is None <==> self.verdict().pass,
            msg matches Some(text) ==> text@ == no_index_match_diagnostic(),
    {
        if self.pass() {
            None
        } else {
            Some(String::from_str("explain result shows that no index is matched"))
        }
    }
}

} // verus!
