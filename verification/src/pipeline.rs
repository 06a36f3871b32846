//! The registry of rules, and the dispatch of one record to every rule.

use crate::analyzers::{
    AbstractAnalyzeResult, Analyzer, AnalyzerError, AnalyzerResultRow, AnalyzerResultRowView,
    Verdict,
};
use crate::domain::{ExplainResult, ExplainResultView};
use std::sync::Arc;
use vstd::prelude::*;

verus! {

/// What the dispatcher asks of a registered rule, whatever the rule hands
/// out. A rule can be handed from one task to another.
pub trait Rule: Send + Sync {
    /// The name under which the rule's verdicts are stored.
    spec fn name(&self) -> Seq<char>;

    /// What the rule concludes of a record, or `None` where it cannot judge it.
    spec fn conclusion(&self, data: ExplainResultView) -> Option<Verdict>;

    /// The reason that the rule gives where it cannot judge a record.
    spec fn objection(&self, data: ExplainResultView) -> Seq<char>;

    /// Judges a record and writes the verdict out as a row for the result store.
    fn run(&self, data: Arc<ExplainResult>) -> (row: Result<AnalyzerResultRow, AnalyzerError>)
        ensures
            row is Ok <==> self.conclusion(data@) is Some,
            row matches Err(e) ==> e.reason@ == self.objection(data@),
            row matches Ok(r) ==> r@ == row_for(
                self.name(),
                data@.id,
                self.conclusion(data@).unwrap(),
            ),
    ;
}

/// The row that records `verdict`, given by the rule named `name`, on the
/// record `explain_id`.
pub open spec fn row_for(
    name: Seq<char>,
    explain_id: Seq<char>,
    verdict: Verdict,
) -> AnalyzerResultRowView {
    AnalyzerResultRowView { explain_id, name, pass: verdict.pass, msg: verdict.msg }
}

impl<A: Analyzer + Send + Sync> Rule for A {
    open spec fn name(&self) -> Seq<char> {
        A::Output::rule_name()
    }

    open spec fn conclusion(&self, data: ExplainResultView) -> Option<Verdict> {
        self.judge(data)
    }

    open spec fn objection(&self, data: ExplainResultView) -> Seq<char> {
        self.refusal(data)
    }

    fn run(&self, data: Arc<ExplainResult>) -> (row: Result<AnalyzerResultRow, AnalyzerError>) {
        self.process(data)
    }
}

/// `Arc::clone` of std: one more handle to the same record.
#[verifier::external_body]
fn share(data: &Arc<ExplainResult>) -> (again: Arc<ExplainResult>)
    ensures
        again == *data,
{
    Arc::clone(data)
}

/// What one rule gave for a record: the row for the result store, or the
/// reason why the rule could not judge the record.
pub open spec fn outcome_matches(
    outcome: Result<AnalyzerResultRow, AnalyzerError>,
    rule: &dyn Rule,
    data: ExplainResultView,
) -> bool {
    match outcome {
        Ok(row) => rule.conclusion(data) is Some && row@ == row_for(
            rule.name(),
            data.id,
            rule.conclusion(data).unwrap(),
        ),
        Err(e) => rule.conclusion(data) is None && e.reason@ == rule.objection(data),
    }
}

/// The rules that every explain record is put to, in the order in which they
/// were registered.
pub enum AnalyzerPipeline {
    /// No rule.
    Empty,
    /// The rules of `earlier`, and `rule` behind them.
    With { earlier: Box<AnalyzerPipeline>, rule: Box<dyn Rule> },
}

/// The rows among `outcomes`, in their order: what a dispatch hands to the
/// result store.
pub open spec fn stored(outcomes: Seq<Result<AnalyzerResultRow, AnalyzerError>>) -> Seq<
    AnalyzerResultRowView,
>
    decreases outcomes.len(),
{
    if outcomes.len() == 0 {
        Seq::empty()
    } else {
        match outcomes.last() {
            Ok(row) => stored(outcomes.drop_last()).push(row@),
            Err(_) => stored(outcomes.drop_last()),
        }
    }
}

/// The most recent row of `log` that holds the verdict of the rule `name` on
/// the record `explain_id`. Where a record was judged more than once, this
/// row is the one that counts.
pub open spec fn latest(
    log: Seq<AnalyzerResultRowView>,
    explain_id: Seq<char>,
    name: Seq<char>,
) -> Option<AnalyzerResultRowView>
    decreases log.len(),
{
    if log.len() == 0 {
        None
    } else if log.last().explain_id == explain_id && log.last().name == name {
        Some(log.last())
    } else {
        latest(log.drop_last(), explain_id, name)
    }
}

impl AnalyzerPipeline {
    /// The number of rules.
    pub open spec fn count(self) -> nat
        decreases self,
    {
        match self {
            AnalyzerPipeline::Empty => 0,
            AnalyzerPipeline::With { earlier, .. } => earlier.count() + 1,
        }
    }

    /// Whether `outcomes` is what the rules give for a record: one outcome
    /// for each rule, in the order of registration.
    pub open spec fn dispatched(
        self,
        data: ExplainResultView,
        outcomes: Seq<Result<AnalyzerResultRow, AnalyzerError>>,
    ) -> bool
        decreases self,
    {
        match self {
            AnalyzerPipeline::Empty => outcomes.len() == 0,
            AnalyzerPipeline::With { earlier, rule } => {
                &&& outcomes.len() > 0
                &&& outcome_matches(outcomes.last(), &*rule, data)
                &&& earlier.dispatched(data, outcomes.drop_last())
            },
        }
    }

    /// A pipeline without rules.
    pub fn new() -> (pipeline: Self)
        ensures
            pipeline == AnalyzerPipeline::Empty,
    {
        AnalyzerPipeline::Empty
    }

    /// The pipeline with one more rule, registered behind those it has.
    pub fn register(self, rule: Box<dyn Rule>) -> (pipeline: Self)
        ensures
            pipeline == (AnalyzerPipeline::With { earlier: Box::new(self), rule }),
    {
        AnalyzerPipeline::With { earlier: Box::new(self), rule }
    }

    /// Puts one record to every registered rule, each exactly once and in
    /// the order of registration. A rule that cannot judge the record leaves
    /// its reason in its place and does not keep the others from running.
    pub fn dispatch(&self, data: Arc<ExplainResult>) -> (outcomes: Vec<
        Result<AnalyzerResultRow, AnalyzerError>,
    >)
        ensures
            self.dispatched(data@, outcomes@),
            outcomes@.len() == self.count(),
        decreases self,
    {
        match self {
            AnalyzerPipeline::Empty => Vec::new(),
            AnalyzerPipeline::With { earlier, rule } => {
                let mut outcomes = earlier.dispatch(share(&data));
                let ghost before = outcomes@;
                let outcome = rule.run(data);
                outcomes.push(outcome);
                assert(outcomes@.drop_last() =~= before);
                outcomes
            },
        }
    }
}

/// The latest row of a log that was extended is the latest row of the
/// extension, and where the extension has none, that of the log before.
pub proof fn lemma_latest_of_extension(
    log: Seq<AnalyzerResultRowView>,
    more: Seq<AnalyzerResultRowView>,
    explain_id: Seq<char>,
    name: Seq<char>,
)
    ensures
        latest(log + more, explain_id, name) == if latest(more, explain_id, name) is Some {
            latest(more, explain_id, name)
        } else {
            latest(log, explain_id, name)
        },
    decreases more.len(),
{
    if more.len() == 0 {
        assert(log + more =~= log);
    } else {
        assert((log + more).drop_last() =~= log + more.drop_last());
        assert((log + more).last() == more.last());
        lemma_latest_of_extension(log, more.drop_last(), explain_id, name);
    }
}

/// A rule stores all its verdicts under one name, whatever the records.
pub proof fn law_rule_name_is_stable(
    rule: &dyn Rule,
    one: ExplainResultView,
    other: ExplainResultView,
    one_row: AnalyzerResultRow,
    other_row: AnalyzerResultRow,
)
    requires
        outcome_matches(Ok(one_row), rule, one),
        outcome_matches(Ok(other_row), rule, other),
    ensures
        one_row@.name == other_row@.name,
        one_row@.name == rule.name(),
{
}

/// Two dispatches of one record to the same rules hand the same rows to the
/// result store.
pub proof fn law_dispatch_is_repeatable(
    pipeline: AnalyzerPipeline,
    data: ExplainResultView,
    first: Seq<Result<AnalyzerResultRow, AnalyzerError>>,
    second: Seq<Result<AnalyzerResultRow, AnalyzerError>>,
)
    requires
        pipeline.dispatched(data, first),
        pipeline.dispatched(data, second),
    ensures
        stored(first) == stored(second),
    decreases pipeline,
{
    match pipeline {
        AnalyzerPipeline::Empty => {},
        AnalyzerPipeline::With { earlier, rule } => {
            law_dispatch_is_repeatable(*earlier, data, first.drop_last(), second.drop_last());
        },
    }
}

/// A record that is dispatched again adds rows to the result store and
/// changes none: the store holds what it held, followed by the same rows
/// once more, and for every rule the row that counts holds the verdict it
/// held before.
pub proof fn law_second_dispatch_adds_rows(
    log: Seq<AnalyzerResultRowView>,
    pipeline: AnalyzerPipeline,
    data: ExplainResultView,
    first: Seq<Result<AnalyzerResultRow, AnalyzerError>>,
    second: Seq<Result<AnalyzerResultRow, AnalyzerError>>,
    name: Seq<char>,
)
    requires
        pipeline.dispatched(data, first),
        pipeline.dispatched(data, second),
    ensures
        log + stored(first) + stored(second) == log + stored(first) + stored(first),
        (log + stored(first) + stored(second)).len() == log.len() + 2 * stored(first).len(),
        (log + stored(first) + stored(second)).subrange(0, (log + stored(first)).len() as int)
            == log + stored(first),
        latest(log + stored(first) + stored(second), data.id, name) == latest(
            log + stored(first),
            data.id,
            name,
        ),
{
    law_dispatch_is_repeatable(pipeline, data, first, second);
    let once = log + stored(first);
    assert((once + stored(second)).subrange(0, once.len() as int) =~= once);
    lemma_latest_of_extension(once, stored(second), data.id, name);
    lemma_latest_of_extension(log, stored(first), data.id, name);
}

} // verus!
