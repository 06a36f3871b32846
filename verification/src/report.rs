//! The report of failed verdicts: every explain record of the report with
//! the verdicts that were stored against it.

use crate::domain::{AnalyseResult, ExplainResult};
use itertools::Itertools;
use vstd::prelude::*;

verus! {

/// An explain record with the stored verdicts that name it.
#[derive(Debug)]
pub struct ExplainResultWithAnalysis {
    pub explain: ExplainResult,
    pub analysis: Vec<AnalyseResult>,
}

/// The verdicts on one record that stand side by side in a sequence.
#[derive(Debug)]
pub struct AnalysisGroup {
    pub explain_id: String,
    pub results: Vec<AnalyseResult>,
}

/// The order of std on strings: by the first character in which two texts
/// differ, characters ordered by their code points; a text comes before
/// every text that it begins.
pub open spec fn text_le(a: Seq<char>, b: Seq<char>) -> bool
    decreases a.len(),
{
    if a.len() == 0 {
        true
    } else if b.len() == 0 {
        false
    } else if a.first() != b.first() {
        (a.first() as u32) < (b.first() as u32)
    } else {
        text_le(a.drop_first(), b.drop_first())
    }
}

/// The verdicts of `results` on the record `explain_id`, in their order.
pub open spec fn matching(results: Seq<AnalyseResult>, explain_id: Seq<char>) -> Seq<
    AnalyseResult,
> {
    results.filter(|r: AnalyseResult| r.explain_id@ == explain_id)
}

/// Whether the verdicts of `results` stand in the order of their records' ids.
pub open spec fn in_order(results: Seq<AnalyseResult>) -> bool {
    forall|i: int, j: int|
        0 <= i < j < results.len() ==> text_le(
            #[trigger] results[i].explain_id@,
            #[trigger] results[j].explain_id@,
        )
}

/// Whether `sorted` holds the verdicts of `results` in the order of their
/// records' ids, verdicts on one record in the order they had.
pub open spec fn is_sorted_by_explain_id(
    results: Seq<AnalyseResult>,
    sorted: Seq<AnalyseResult>,
) -> bool {
    &&& in_order(sorted)
    &&& forall|explain_id: Seq<char>|
        #[trigger] matching(sorted, explain_id) == matching(results, explain_id)
}

/// The verdicts of all groups, group after group.
pub open spec fn joined(groups: Seq<AnalysisGroup>) -> Seq<AnalyseResult>
    decreases groups.len(),
{
    if groups.len() == 0 {
        Seq::empty()
    } else {
        joined(groups.drop_last()) + groups.last().results@
    }
}

/// Whether a group holds at least one verdict, and only verdicts on the
/// record that the group names.
pub open spec fn is_run(group: AnalysisGroup) -> bool {
    &&& group.results@.len() > 0
    &&& forall|k: int|
        0 <= k < group.results@.len() ==> (#[trigger] group.results@[k]).explain_id@
            == group.explain_id@
}

/// Whether every group is a run and no two neighbours name one record.
pub open spec fn are_runs(groups: Seq<AnalysisGroup>) -> bool {
    &&& forall|g: int| 0 <= g < groups.len() ==> is_run(#[trigger] groups[g])
    &&& forall|g: int|
        0 < g < groups.len() ==> groups[g - 1].explain_id@ != (#[trigger] groups[g]).explain_id@
}

/// Whether `groups` cuts `results` into its runs: the longest stretches of
/// neighbours that are verdicts on one record.
pub open spec fn are_runs_of(groups: Seq<AnalysisGroup>, results: Seq<AnalyseResult>) -> bool {
    joined(groups) == results && are_runs(groups)
}

/// Calls `Itertools::sorted_by_key` with the record's id as the key: a
/// stable sort, so verdicts on one record keep their order.
#[verifier::external_body]
fn sorted_by_explain_id(results: Vec<AnalyseResult>) -> (sorted: Vec<AnalyseResult>)
    ensures
        is_sorted_by_explain_id(results@, sorted@),
{
    results.into_iter().sorted_by_key(|it| it.explain_id.to_owned()).collect_vec()
}

/// Calls `Itertools::group_by` with the record's id as the key, and collects
/// each group: neighbours with one key form one group, under that key.
#[verifier::external_body]
fn grouped_by_explain_id(results: Vec<AnalyseResult>) -> (groups: Vec<AnalysisGroup>)
    ensures
        are_runs_of(groups@, results@),
{
    let grouped = results.into_iter().group_by(|it| it.explain_id.to_owned());
    grouped.into_iter().map(
        |(explain_id, group)| AnalysisGroup { explain_id, results: group.collect_vec() },
    ).collect_vec()
}

/// Two texts of which each comes before the other are one text.
pub proof fn lemma_text_le_antisymmetric(a: Seq<char>, b: Seq<char>)
    requires
        text_le(a, b),
        text_le(b, a),
    ensures
        a == b,
    decreases a.len(),
{
    if a.len() == 0 {
        assert(a =~= b);
    } else {
        lemma_text_le_antisymmetric(a.drop_first(), b.drop_first());
        assert(a =~= seq![a.first()] + a.drop_first());
        assert(b =~= seq![b.first()] + b.drop_first());
    }
}

/// Of a sequence and one more verdict, the verdicts on a record are those of
/// the sequence, and the one more where it is on the record.
proof fn lemma_matching_push(results: Seq<AnalyseResult>, one: AnalyseResult, explain_id: Seq<char>)
    ensures
        matching(results.push(one), explain_id) == if one.explain_id@ == explain_id {
            matching(results, explain_id).push(one)
        } else {
            matching(results, explain_id)
        },
{
    reveal(Seq::filter);
    assert(results.push(one).drop_last() =~= results);
}

/// The verdicts on a record in two sequences, one after the other, are those
/// in the first followed by those in the second.
proof fn lemma_matching_add(a: Seq<AnalyseResult>, b: Seq<AnalyseResult>, explain_id: Seq<char>)
    ensures
        matching(a + b, explain_id) == matching(a, explain_id) + matching(b, explain_id),
{
    Seq::filter_distributes_over_add(a, b, |r: AnalyseResult| r.explain_id@ == explain_id);
}

/// Of verdicts that are all on one record, those on a record are all of
/// them or none.
proof fn lemma_matching_of_run(results: Seq<AnalyseResult>, key: Seq<char>, explain_id: Seq<char>)
    requires
        forall|k: int| 0 <= k < results.len() ==> (#[trigger] results[k]).explain_id@ == key,
    ensures
        matching(results, explain_id) == if explain_id == key {
            results
        } else {
            Seq::empty()
        },
    decreases results.len(),
{
    if results.len() == 0 {
        reveal(Seq::filter);
        assert(matching(results, explain_id) =~= Seq::empty());
        assert(results =~= Seq::empty());
    } else {
        let front = results.drop_last();
        assert forall|k: int| 0 <= k < front.len() implies (#[trigger] front[k]).explain_id@
            == key by {
            assert(front[k] == results[k]);
        }
        lemma_matching_of_run(front, key, explain_id);
        lemma_matching_push(front, results.last(), explain_id);
        assert(front.push(results.last()) =~= results);
    }
}

/// Where a verdict of a group stands among the joined verdicts: the last
/// group's verdicts after all others.
proof fn lemma_place(groups: Seq<AnalysisGroup>, g: int, k: int) -> (p: int)
    requires
        0 <= g < groups.len(),
        0 <= k < groups[g].results@.len(),
    ensures
        0 <= p < joined(groups).len(),
        joined(groups)[p] == groups[g].results@[k],
        g < groups.len() - 1 ==> p < joined(groups.drop_last()).len(),
        g == groups.len() - 1 ==> p >= joined(groups.drop_last()).len(),
    decreases groups.len(),
{
    if g == groups.len() - 1 {
        joined(groups.drop_last()).len() + k
    } else {
        lemma_place(groups.drop_last(), g, k)
    }
}

/// All groups but the last are runs of what they join, in order.
proof fn lemma_front_runs(groups: Seq<AnalysisGroup>)
    requires
        groups.len() > 0,
        are_runs(groups),
        in_order(joined(groups)),
    ensures
        are_runs(groups.drop_last()),
        in_order(joined(groups.drop_last())),
{
    let front = groups.drop_last();
    assert forall|g: int| 0 <= g < front.len() implies is_run(#[trigger] front[g]) by {
        assert(front[g] == groups[g]);
    }
    assert forall|g: int| 0 < g < front.len() implies front[g - 1].explain_id@ != (
    #[trigger] front[g]).explain_id@ by {
        assert(front[g] == groups[g]);
        assert(front[g - 1] == groups[g - 1]);
    }
    let all = joined(groups);
    let part = joined(front);
    assert forall|i: int, j: int| 0 <= i < j < part.len() implies text_le(
        #[trigger] part[i].explain_id@,
        #[trigger] part[j].explain_id@,
    ) by {
        assert(all[i] == part[i]);
        assert(all[j] == part[j]);
    }
}

/// Runs of verdicts in order name different records.
proof fn lemma_runs_differ(groups: Seq<AnalysisGroup>, g: int, h: int)
    requires
        are_runs(groups),
        in_order(joined(groups)),
        0 <= g < h < groups.len(),
    ensures
        groups[g].explain_id@ != groups[h].explain_id@,
    decreases groups.len(),
{
    let front = groups.drop_last();
    lemma_front_runs(groups);
    if h < groups.len() - 1 {
        lemma_runs_differ(front, g, h);
    } else if g == h - 1 {
    } else {
        let m = h - 1;
        let all = joined(groups);
        assert(is_run(groups[g]) && is_run(groups[m]) && is_run(groups[h]));
        let pg = lemma_place(front, g, 0);
        let pm = lemma_place(front, m, 0);
        let ph = lemma_place(groups, h, 0);
        assert(all[pg] == groups[g].results@[0]);
        assert(all[pm] == groups[m].results@[0]);
        assert(text_le(all[pg].explain_id@, all[pm].explain_id@));
        assert(text_le(all[pm].explain_id@, all[ph].explain_id@));
        if groups[g].explain_id@ == groups[h].explain_id@ {
            lemma_text_le_antisymmetric(groups[g].explain_id@, groups[m].explain_id@);
        }
    }
}

/// Groups of which none names a record join to verdicts of which none is on it.
proof fn lemma_unnamed_is_unmatched(groups: Seq<AnalysisGroup>, explain_id: Seq<char>)
    requires
        forall|g: int| 0 <= g < groups.len() ==> is_run(#[trigger] groups[g]),
        forall|g: int| 0 <= g < groups.len() ==> (#[trigger] groups[g]).explain_id@ != explain_id,
    ensures
        matching(joined(groups), explain_id) == Seq::<AnalyseResult>::empty(),
    decreases groups.len(),
{
    if groups.len() == 0 {
        reveal(Seq::filter);
    } else {
        let front = groups.drop_last();
        assert forall|g: int| 0 <= g < front.len() implies is_run(#[trigger] front[g])
            && front[g].explain_id@ != explain_id by {
            assert(front[g] == groups[g]);
        }
        lemma_unnamed_is_unmatched(front, explain_id);
        let last = groups.last();
        assert(is_run(last));
        lemma_matching_of_run(last.results@, last.explain_id@, explain_id);
        lemma_matching_add(joined(front), last.results@, explain_id);
    }
}

/// A run of verdicts in order holds all the verdicts on the record it names.
proof fn lemma_run_is_complete(groups: Seq<AnalysisGroup>, g: int)
    requires
        are_runs(groups),
        in_order(joined(groups)),
        0 <= g < groups.len(),
    ensures
        groups[g].results@ == matching(joined(groups), groups[g].explain_id@),
    decreases groups.len(),
{
    let front = groups.drop_last();
    let last = groups.last();
    let key = groups[g].explain_id@;
    lemma_front_runs(groups);
    assert(is_run(last));
    lemma_matching_add(joined(front), last.results@, key);
    lemma_matching_of_run(last.results@, last.explain_id@, key);
    if g == groups.len() - 1 {
        assert forall|f: int| 0 <= f < front.len() implies (#[trigger] front[f]).explain_id@
            != key by {
            lemma_runs_differ(groups, f, g);
        }
        lemma_unnamed_is_unmatched(front, key);
        assert(Seq::<AnalyseResult>::empty() + last.results@ =~= last.results@);
    } else {
        lemma_runs_differ(groups, g, groups.len() - 1);
        lemma_run_is_complete(front, g);
        assert(front[g].results@ + Seq::<AnalyseResult>::empty() =~= front[g].results@);
    }
}

/// Whether one of the first `i` records bears the id `explain_id`.
pub open spec fn named_before(explains: Seq<ExplainResult>, i: int, explain_id: Seq<char>) -> bool {
    exists|j: int| 0 <= j < i && (#[trigger] explains[j]).id@ == explain_id
}

/// The verdicts that the report shows with its `i`-th record: all stored
/// verdicts on the record, in the order they were given in; none where an
/// earlier record of the report bears the same id.
pub open spec fn analysis_of(
    explains: Seq<ExplainResult>,
    results: Seq<AnalyseResult>,
    i: int,
) -> Seq<AnalyseResult> {
    if named_before(explains, i, explains[i].id@) {
        Seq::empty()
    } else {
        matching(results, explains[i].id@)
    }
}

/// What the groups still hold while the report is made: for every record
/// that has verdicts and was not yet met, one group with all its verdicts.
spec fn groups_pending(
    groups: Seq<AnalysisGroup>,
    results: Seq<AnalyseResult>,
    explains: Seq<ExplainResult>,
    i: int,
) -> bool {
    &&& forall|c: int|
        0 <= c < groups.len() ==> (#[trigger] groups[c]).results@ == matching(
            results,
            groups[c].explain_id@,
        )
    &&& forall|c: int, d: int|
        0 <= c < d < groups.len() ==> (#[trigger] groups[c]).explain_id@ != (
        #[trigger] groups[d]).explain_id@
    &&& forall|c: int|
        0 <= c < groups.len() ==> !named_before(explains, i, (#[trigger] groups[c]).explain_id@)
    &&& forall|explain_id: Seq<char>|
        matching(results, explain_id).len() > 0 && !named_before(explains, i, explain_id)
            ==> exists|c: int|
            0 <= c < groups.len() && (#[trigger] groups[c]).explain_id@ == explain_id
}

/// The groups that sorting and grouping give hold, for every record that has
/// verdicts, one group with all of them.
proof fn lemma_groups_start(
    groups: Seq<AnalysisGroup>,
    sorted: Seq<AnalyseResult>,
    results: Seq<AnalyseResult>,
    explains: Seq<ExplainResult>,
)
    requires
        is_sorted_by_explain_id(results, sorted),
        are_runs_of(groups, sorted),
    ensures
        groups_pending(groups, results, explains, 0),
{
    assert forall|c: int| 0 <= c < groups.len() implies (#[trigger] groups[c]).results@
        == matching(results, groups[c].explain_id@) by {
        lemma_run_is_complete(groups, c);
        assert(matching(sorted, groups[c].explain_id@) == matching(
            results,
            groups[c].explain_id@,
        ));
    }
    assert forall|c: int, d: int| 0 <= c < d < groups.len() implies (
    #[trigger] groups[c]).explain_id@ != (#[trigger] groups[d]).explain_id@ by {
        lemma_runs_differ(groups, c, d);
    }
    assert forall|explain_id: Seq<char>|
        matching(results, explain_id).len() > 0 && !named_before(
            explains,
            0,
            explain_id,
        ) implies exists|c: int|
        0 <= c < groups.len() && (#[trigger] groups[c]).explain_id@ == explain_id by {
        assert(matching(sorted, explain_id) == matching(results, explain_id));
        if forall|c: int|
            0 <= c < groups.len() ==> (#[trigger] groups[c]).explain_id@ != explain_id {
            lemma_unnamed_is_unmatched(groups, explain_id);
        }
    }
}

/// Whether `taken` is the group of `before` that names `explain_id`, with
/// `after` as what is left, or nothing, where no group names it.
spec fn took(
    before: Seq<AnalysisGroup>,
    after: Seq<AnalysisGroup>,
    explain_id: Seq<char>,
    taken: Option<AnalysisGroup>,
) -> bool {
    match taken {
        Some(group) => exists|c: int|
            0 <= c < before.len() && group == (#[trigger] before[c]) && group.explain_id@
                == explain_id && after == before.update(c, before.last()).drop_last(),
        None => after == before && forall|c: int|
            0 <= c < before.len() ==> (#[trigger] before[c]).explain_id@ != explain_id,
    }
}

/// The verdicts of a group that was taken; none where none was.
spec fn taken_results(taken: Option<AnalysisGroup>) -> Seq<AnalyseResult> {
    match taken {
        Some(group) => group.results@,
        None => Seq::empty(),
    }
}

/// Taking the group of the next record gives the verdicts that the report
/// shows with it, and leaves the groups of the records not yet met.
proof fn lemma_groups_step(
    before: Seq<AnalysisGroup>,
    after: Seq<AnalysisGroup>,
    taken: Option<AnalysisGroup>,
    results: Seq<AnalyseResult>,
    explains: Seq<ExplainResult>,
    i: int,
)
    requires
        0 <= i < explains.len(),
        groups_pending(before, results, explains, i),
        took(before, after, explains[i].id@, taken),
    ensures
        groups_pending(after, results, explains, i + 1),
        taken_results(taken) == analysis_of(explains, results, i),
{
    let key = explains[i].id@;
    let n = before.len();
    assert(named_before(explains, i + 1, key));
    assert forall|explain_id: Seq<char>|
        named_before(explains, i + 1, explain_id) <==> (named_before(explains, i, explain_id)
            || explain_id == key) by {
        if named_before(explains, i, explain_id) {
            let j = choose|j: int| 0 <= j < i && (#[trigger] explains[j]).id@ == explain_id;
            assert(0 <= j < i + 1 && explains[j].id@ == explain_id);
        }
        if explain_id == key {
            assert(0 <= i < i + 1 && explains[i].id@ == explain_id);
        }
    }
    match taken {
        Some(group) => {
            let c = choose|c: int|
                0 <= c < before.len() && group == (#[trigger] before[c]) && group.explain_id@
                    == key && after == before.update(c, before.last()).drop_last();
            assert forall|k: int| 0 <= k < after.len() implies (#[trigger] after[k]) == before[if k
                == c {
                n - 1
            } else {
                k
            }] by {}
            assert forall|a: int, b: int| 0 <= a < b < after.len() implies (
            #[trigger] after[a]).explain_id@ != (#[trigger] after[b]).explain_id@ by {
                let sa = if a == c { n - 1 } else { a };
                let sb = if b == c { n - 1 } else { b };
                assert(after[a] == before[sa] && after[b] == before[sb]);
                if sa < sb {
                    assert(before[sa].explain_id@ != before[sb].explain_id@);
                } else {
                    assert(before[sb].explain_id@ != before[sa].explain_id@);
                }
            }
            assert forall|k: int| 0 <= k < after.len() implies !named_before(
                explains,
                i + 1,
                (#[trigger] after[k]).explain_id@,
            ) by {
                let sk = if k == c { n - 1 } else { k };
                assert(after[k] == before[sk]);
                if sk < c {
                    assert(before[sk].explain_id@ != before[c].explain_id@);
                } else {
                    assert(before[c].explain_id@ != before[sk].explain_id@);
                }
                assert(!named_before(explains, i, before[sk].explain_id@));
            }
            assert forall|explain_id: Seq<char>|
                matching(results, explain_id).len() > 0 && !named_before(
                    explains,
                    i + 1,
                    explain_id,
                ) implies exists|k: int|
                0 <= k < after.len() && (#[trigger] after[k]).explain_id@ == explain_id by {
                assert(!named_before(explains, i, explain_id) && explain_id != key);
                let d = choose|d: int|
                    0 <= d < before.len() && (#[trigger] before[d]).explain_id@ == explain_id;
                let k = if d == n - 1 { c } else { d };
                assert(after[k] == before[d]);
            }
            assert(!named_before(explains, i, before[c].explain_id@));
        },
        None => {
            if !named_before(explains, i, key) {
                if matching(results, key).len() > 0 {
                    let d = choose|d: int|
                        0 <= d < before.len() && (#[trigger] before[d]).explain_id@ == key;
                    assert(false);
                }
                assert(matching(results, key) =~= Seq::empty());
            }
            assert forall|explain_id: Seq<char>|
                matching(results, explain_id).len() > 0 && !named_before(
                    explains,
                    i + 1,
                    explain_id,
                ) implies exists|k: int|
                0 <= k < after.len() && (#[trigger] after[k]).explain_id@ == explain_id by {
                assert(!named_before(explains, i, explain_id));
            }
        },
    }
}

/// Takes the group that names `explain_id` out of `groups`, if there is one.
fn take_group(groups: &mut Vec<AnalysisGroup>, explain_id: &String) -> (taken: Option<
    AnalysisGroup,
>)
    ensures
        took(old(groups)@, final(groups)@, explain_id@, taken),
{
    let mut c: usize = 0;
    while c < groups.len()
        invariant
            c <= groups@.len(),
            groups@ == old(groups)@,
            forall|b: int| 0 <= b < c ==> (#[trigger] groups@[b]).explain_id@ != explain_id@,
        decreases groups@.len() - c,
    {
        if groups[c].explain_id == *explain_id {
            let group = groups.swap_remove(c);
            return Some(group);
        }
        c += 1;
    }
    None
}

/// Makes the report: every record of `explains`, in the order given, with
/// the verdicts of `results` that are on it, in the order given. Verdicts on
/// a record are shown once, with the first record that bears the id.
pub fn attach_analysis(explains: Vec<ExplainResult>, results: Vec<AnalyseResult>) -> (report: Vec<
    ExplainResultWithAnalysis,
>)
    ensures
        report@.len() == explains@.len(),
        forall|i: int|
            0 <= i < report@.len() ==> (#[trigger] report@[i]).explain == explains@[i]
                && report@[i].analysis@ == analysis_of(explains@, results@, i),
{
    let sorted = sorted_by_explain_id(results);
    let mut groups = grouped_by_explain_id(sorted);
    proof {
        lemma_groups_start(groups@, sorted@, results@, explains@);
    }
    let ghost all = explains@;
    let mut report: Vec<ExplainResultWithAnalysis> = Vec::new();
    for explain in it: explains
        invariant
            it.seq() == all,
            report@.len() == it.index(),
            groups_pending(groups@, results@, all, it.index() as int),
            forall|i: int|
                0 <= i < report@.len() ==> (#[trigger] report@[i]).explain == all[i]
                    && report@[i].analysis@ == analysis_of(all, results@, i),
    {
        let ghost i = it.index() as int;
        let ghost before = groups@;
        let taken = take_group(&mut groups, &explain.id);
        proof {
            assert(explain == all[i]);
            lemma_groups_step(before, groups@, taken, results@, all, i);
        }
        let analysis = match taken {
            Some(group) => group.results,
            None => Vec::new(),
        };
        report.push(ExplainResultWithAnalysis { explain, analysis });
    }
    report
}

} // verus!
