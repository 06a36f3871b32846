use std::sync::Arc;

use explain_audit::analyzers::no_index_match_analyzer::NoIndexMatchAnalyzer;
use explain_audit::domain::PlanRow;
use explain_audit::listener::{capture, BinlogListener, CaptureError, ExplainRequest, Step};
use explain_audit::pipeline::AnalyzerPipeline;
use explain_audit::statement::{Observed, ReplicationEvent};

fn query(session_id: u32, raw_text: &str) -> ReplicationEvent {
    ReplicationEvent::QueryStatement { session_id, raw_text: raw_text.to_owned(), start_time: 0 }
}

fn plan_row(select_type: &str, table: &str, key: Option<&str>) -> PlanRow {
    PlanRow {
        explain_id: 1,
        select_type: select_type.to_owned(),
        table: table.to_owned(),
        partitions: None,
        _type: "ALL".to_owned(),
        possible_keys: None,
        key: key.map(|k| k.to_owned()),
        key_len: None,
        _ref: None,
        rows: Some(3),
        filtered: Some(100.0f64.to_bits()),
        extra: Some("Using where".to_owned()),
    }
}

fn request(step: Step) -> ExplainRequest {
    match step {
        Step::Explain(request) => request,
        other => panic!("unexpected {:?}", other),
    }
}

fn is_random(id: u128) -> bool {
    id & 0x0000_0000_0000_f000_c000_0000_0000_0000 == 0x0000_0000_0000_4000_8000_0000_0000_0000
}

#[test]
fn a_statement_outside_a_transaction_is_explained_under_none() {
    let mut listener = BinlogListener::new();
    let request = request(listener.on_event(&query(7, " UPDATE t SET x=1 ")));
    assert_eq!(request.session_id, 7);
    assert_eq!(request.query, "UPDATE t SET x=1");
    assert_eq!(request.explain_sql, "EXPLAIN UPDATE t SET x=1");
    assert_eq!(request.txn, None);
}

#[test]
fn begin_opens_a_transaction_under_a_random_identifier() {
    let mut listener = BinlogListener::new();
    match listener.on_event(&query(7, "BEGIN")) {
        Step::Opened { session_id, txn } => {
            assert_eq!(session_id, 7);
            assert!(is_random(txn));
            assert_eq!(listener.open_transaction(7), Some(txn));
        }
        other => panic!("unexpected {:?}", other),
    }
    assert_eq!(listener.open_transaction(8), None);
}

#[test]
fn two_transactions_get_different_identifiers() {
    let mut listener = BinlogListener::new();
    let first = match listener.on_event(&query(1, "BEGIN")) {
        Step::Opened { txn, .. } => txn,
        other => panic!("unexpected {:?}", other),
    };
    let second = match listener.on_event(&query(2, "BEGIN")) {
        Step::Opened { txn, .. } => txn,
        other => panic!("unexpected {:?}", other),
    };
    assert_ne!(first, second);
    assert_eq!(listener.open_transaction(1), Some(first));
    assert_eq!(listener.open_transaction(2), Some(second));
}

#[test]
fn statements_between_begin_and_commit_bear_the_transaction() {
    let mut listener = BinlogListener::new();
    let before = request(listener.on_event(&query(7, "SELECT 1")));
    assert_eq!(before.txn, None);
    let txn = match listener.on_event(&query(7, "BEGIN")) {
        Step::Opened { txn, .. } => txn,
        other => panic!("unexpected {:?}", other),
    };
    let first = request(listener.on_event(&query(7, "UPDATE t SET x=1")));
    let elsewhere = request(listener.on_event(&query(8, "UPDATE t SET x=2")));
    let second = request(listener.on_event(&query(7, "DELETE FROM t")));
    assert_eq!(first.txn, Some(txn));
    assert_eq!(second.txn, Some(txn));
    assert_eq!(elsewhere.txn, None);
    assert!(matches!(listener.on_event(&query(7, "COMMIT")), Step::Closed { session_id: 7 }));
    let after = request(listener.on_event(&query(7, "UPDATE t SET x=3")));
    assert_eq!(after.txn, None);
}

#[test]
fn commit_without_begin_is_no_failure_and_changes_nothing() {
    let mut listener = BinlogListener::new();
    listener.apply(Observed::Begin { session_id: 1 }, 11);
    assert!(matches!(listener.on_event(&query(2, "COMMIT")), Step::Closed { session_id: 2 }));
    assert_eq!(listener.open_transaction(1), Some(11));
    assert_eq!(listener.open_transaction(2), None);
}

#[test]
fn a_second_begin_wins() {
    let mut listener = BinlogListener::new();
    listener.apply(Observed::Begin { session_id: 7 }, 1);
    listener.apply(Observed::Begin { session_id: 7 }, 2);
    let request = request(listener.apply(
        Observed::Statement { session_id: 7, query: "DELETE FROM t".to_owned() },
        0,
    ));
    assert_eq!(request.txn, Some(2));
    assert_eq!(request.explain_sql, "EXPLAIN DELETE FROM t");
}

#[test]
fn rollback_is_explained_and_leaves_the_transaction_open() {
    let mut listener = BinlogListener::new();
    listener.apply(Observed::Begin { session_id: 7 }, 5);
    let request = request(listener.on_event(&query(7, "ROLLBACK")));
    assert_eq!(request.query, "ROLLBACK");
    assert_eq!(request.txn, Some(5));
    assert_eq!(listener.open_transaction(7), Some(5));
}

#[test]
fn events_without_a_statement_change_nothing() {
    let mut listener = BinlogListener::new();
    listener.apply(Observed::Begin { session_id: 7 }, 5);
    assert!(matches!(listener.on_event(&ReplicationEvent::RowMutation), Step::Skipped));
    assert!(matches!(listener.on_event(&ReplicationEvent::Other), Step::Skipped));
    assert!(matches!(listener.apply(Observed::Skipped, 9), Step::Skipped));
    assert_eq!(listener.open_transaction(7), Some(5));
}

#[test]
fn apply_opens_the_transaction_it_is_given() {
    let mut listener = BinlogListener::new();
    match listener.apply(Observed::Begin { session_id: 3 }, 77) {
        Step::Opened { session_id, txn } => {
            assert_eq!(session_id, 3);
            assert_eq!(txn, 77);
        }
        other => panic!("unexpected {:?}", other),
    }
    assert!(matches!(
        listener.apply(Observed::Commit { session_id: 3 }, 78),
        Step::Closed { session_id: 3 }
    ));
    assert_eq!(listener.open_transaction(3), None);
}

#[test]
fn markers_leave_no_request() {
    let mut listener = BinlogListener::new();
    assert!(!matches!(listener.on_event(&query(7, "BEGIN")), Step::Explain(_)));
    assert!(!matches!(listener.on_event(&query(7, "COMMIT")), Step::Explain(_)));
    assert!(!matches!(listener.on_event(&query(7, " BEGIN ")), Step::Explain(_)));
    assert!(matches!(listener.on_event(&query(7, "SELECT 1")), Step::Explain(_)));
}

#[test]
fn a_failed_explain_leaves_the_open_transactions_alone() {
    let mut listener = BinlogListener::new();
    listener.apply(Observed::Begin { session_id: 7 }, 5);
    let request = request(listener.on_event(&query(7, "UPDATE nowhere SET x=1")));
    let result = BinlogListener::on_explained(request, Err("no such table".to_owned()), 1);
    assert!(matches!(result, Err(CaptureError::ExplainFailed { .. })));
    assert_eq!(listener.open_transaction(7), Some(5));
    let next = match listener.on_event(&query(7, "UPDATE t SET x=1")) {
        Step::Explain(request) => request,
        other => panic!("unexpected {:?}", other),
    };
    assert_eq!(next.txn, Some(5));
}

#[test]
fn begin_update_commit_leaves_one_record_and_one_failing_verdict() {
    let mut listener = BinlogListener::new();
    let pipeline = AnalyzerPipeline::new().register(Box::new(NoIndexMatchAnalyzer));
    let mut records = Vec::new();
    let mut rows = Vec::new();
    let events = vec![query(7, "BEGIN"), query(7, "UPDATE t SET x=1"), query(7, "COMMIT")];
    let mut opened = None;
    for event in &events {
        match listener.on_event(event) {
            Step::Explain(request) => {
                assert_eq!(request.explain_sql, "EXPLAIN UPDATE t SET x=1");
                let answer = Ok(vec![plan_row("UPDATE", "t", None)]);
                let record = BinlogListener::on_explained(request, answer, 1_700_000_000_000).unwrap();
                let record = Arc::new(record);
                for outcome in pipeline.dispatch(record.clone()) {
                    rows.push(outcome.unwrap());
                }
                records.push(record);
            }
            Step::Opened { txn, .. } => opened = Some(txn),
            Step::Closed { .. } => {}
            Step::Skipped => {}
        }
    }
    assert_eq!(records.len(), 1);
    let record = &records[0];
    assert_eq!(record.query, "UPDATE t SET x=1");
    assert_eq!(record.record_time, 1_700_000_000_000);
    let txn = opened.unwrap();
    let expected = capture(
        ExplainRequest {
            session_id: 7,
            query: String::new(),
            explain_sql: String::new(),
            txn: Some(txn),
        },
        Ok(vec![plan_row("UPDATE", "t", None)]),
        0,
        0,
    )
    .unwrap();
    assert!(record.txn_uuid.is_some());
    assert_eq!(record.txn_uuid, expected.txn_uuid);
    assert_eq!(rows.len(), 1);
    assert_eq!(rows[0].explain_id, record.id);
    assert_eq!(rows[0].name, "No Index Match Analyzer");
    assert!(!rows[0].pass);
    assert_eq!(
        rows[0].msg,
        Some("explain result shows that no index is matched".to_owned())
    );
    assert_eq!(listener.open_transaction(7), None);
}
