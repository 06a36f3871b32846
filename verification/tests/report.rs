use explain_audit::domain::{AnalyseResult, ExplainResult};
use explain_audit::report::attach_analysis;

fn explain(id: &str, record_time: i64) -> ExplainResult {
    ExplainResult {
        id: id.to_owned(),
        query: "UPDATE t SET x=1".to_owned(),
        txn_uuid: None,
        explain_id: 1,
        select_type: "UPDATE".to_owned(),
        table: "t".to_owned(),
        partitions: None,
        _type: "ALL".to_owned(),
        possible_keys: None,
        key: None,
        key_len: None,
        _ref: None,
        rows: None,
        filtered: None,
        extra: None,
        record_time,
    }
}

fn verdict(id: i32, explain_id: &str, name: &str) -> AnalyseResult {
    AnalyseResult {
        id,
        explain_id: explain_id.to_owned(),
        name: name.to_owned(),
        pass: false,
        msg: Some("explain result shows that no index is matched".to_owned()),
    }
}

fn ids(analysis: &Vec<AnalyseResult>) -> Vec<i32> {
    analysis.iter().map(|r| r.id).collect()
}

#[test]
fn nothing_in_nothing_out() {
    assert!(attach_analysis(Vec::new(), Vec::new()).is_empty());
    assert!(attach_analysis(Vec::new(), vec![verdict(1, "a", "rule")]).is_empty());
}

#[test]
fn records_keep_their_order_and_get_their_verdicts() {
    let report = attach_analysis(
        vec![explain("b", 30), explain("a", 20), explain("c", 10)],
        vec![verdict(1, "a", "rule"), verdict(2, "b", "rule"), verdict(3, "c", "rule")],
    );
    assert_eq!(report.len(), 3);
    assert_eq!(report[0].explain.id, "b");
    assert_eq!(report[0].explain.record_time, 30);
    assert_eq!(ids(&report[0].analysis), vec![2]);
    assert_eq!(report[1].explain.id, "a");
    assert_eq!(ids(&report[1].analysis), vec![1]);
    assert_eq!(report[2].explain.id, "c");
    assert_eq!(ids(&report[2].analysis), vec![3]);
}

#[test]
fn verdicts_that_stand_apart_are_brought_together_in_their_order() {
    let report = attach_analysis(
        vec![explain("b", 2), explain("a", 1)],
        vec![
            verdict(1, "b", "first"),
            verdict(2, "a", "first"),
            verdict(3, "b", "second"),
            verdict(4, "a", "second"),
            verdict(5, "b", "third"),
        ],
    );
    assert_eq!(report.len(), 2);
    assert_eq!(report[0].explain.id, "b");
    assert_eq!(ids(&report[0].analysis), vec![1, 3, 5]);
    assert_eq!(report[0].analysis[1].name, "second");
    assert_eq!(report[0].analysis[1].explain_id, "b");
    assert_eq!(report[1].explain.id, "a");
    assert_eq!(ids(&report[1].analysis), vec![2, 4]);
}

#[test]
fn a_record_without_verdicts_gets_none() {
    let report = attach_analysis(
        vec![explain("a", 2), explain("z", 1)],
        vec![verdict(1, "a", "rule"), verdict(2, "q", "rule")],
    );
    assert_eq!(report.len(), 2);
    assert_eq!(ids(&report[0].analysis), vec![1]);
    assert!(report[1].analysis.is_empty());
}

#[test]
fn verdicts_are_shown_with_the_first_record_of_an_id_only() {
    let report = attach_analysis(
        vec![explain("a", 3), explain("b", 2), explain("a", 1)],
        vec![verdict(1, "a", "rule"), verdict(2, "b", "rule"), verdict(3, "a", "rule")],
    );
    assert_eq!(report.len(), 3);
    assert_eq!(ids(&report[0].analysis), vec![1, 3]);
    assert_eq!(ids(&report[1].analysis), vec![2]);
    assert!(report[2].analysis.is_empty());
    assert_eq!(report[2].explain.id, "a");
    assert_eq!(report[2].explain.record_time, 1);
}

#[test]
fn ids_are_told_apart_by_every_character() {
    let report = attach_analysis(
        vec![explain("ab", 3), explain("a", 2), explain("", 1), explain("aB", 0)],
        vec![
            verdict(1, "ab", "rule"),
            verdict(2, "", "rule"),
            verdict(3, "a", "rule"),
            verdict(4, "aB", "rule"),
            verdict(5, "a", "rule"),
            verdict(6, "ab", "rule"),
            verdict(7, "\u{e9}", "rule"),
        ],
    );
    assert_eq!(ids(&report[0].analysis), vec![1, 6]);
    assert_eq!(ids(&report[1].analysis), vec![3, 5]);
    assert_eq!(ids(&report[2].analysis), vec![2]);
    assert_eq!(ids(&report[3].analysis), vec![4]);
}
