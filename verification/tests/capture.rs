use explain_audit::domain::PlanRow;
use explain_audit::listener::{capture, BinlogListener, CaptureError, ExplainRequest};

fn plan_row(explain_id: i64, select_type: &str, table: &str, key: Option<&str>) -> PlanRow {
    PlanRow {
        explain_id,
        select_type: select_type.to_owned(),
        table: table.to_owned(),
        partitions: Some("part_a".to_owned()),
        _type: "range".to_owned(),
        possible_keys: Some("PRIMARY,idx_foo".to_owned()),
        key: key.map(|k| k.to_owned()),
        key_len: Some(8),
        _ref: Some("const".to_owned()),
        rows: Some(12),
        filtered: Some(33.33f64.to_bits()),
        extra: Some("Using where".to_owned()),
    }
}

fn request(txn: Option<u128>) -> ExplainRequest {
    ExplainRequest {
        session_id: 7,
        query: "UPDATE t SET x=1".to_owned(),
        explain_sql: "EXPLAIN UPDATE t SET x=1".to_owned(),
        txn,
    }
}

#[test]
fn a_record_holds_the_row_the_statement_and_the_stamps() {
    let record = capture(
        request(Some(0xa1a2a3a4b1b2c1c2d1d2d3d4d5d6d7d8)),
        Ok(vec![plan_row(1, "UPDATE", "t", Some("idx_foo"))]),
        0x0123456789abcdef0123456789abcdef,
        1_700_000_000_123,
    )
    .unwrap();
    assert_eq!(record.id, "01234567-89ab-cdef-0123-456789abcdef");
    assert_eq!(record.query, "UPDATE t SET x=1");
    assert_eq!(record.txn_uuid, Some("a1a2a3a4-b1b2-c1c2-d1d2-d3d4d5d6d7d8".to_owned()));
    assert_eq!(record.explain_id, 1);
    assert_eq!(record.select_type, "UPDATE");
    assert_eq!(record.table, "t");
    assert_eq!(record.partitions, Some("part_a".to_owned()));
    assert_eq!(record._type, "range");
    assert_eq!(record.possible_keys, Some("PRIMARY,idx_foo".to_owned()));
    assert_eq!(record.key, Some("idx_foo".to_owned()));
    assert_eq!(record.key_len, Some(8));
    assert_eq!(record._ref, Some("const".to_owned()));
    assert_eq!(record.rows, Some(12));
    assert_eq!(record.filtered.map(f64::from_bits), Some(33.33));
    assert_eq!(record.extra, Some("Using where".to_owned()));
    assert_eq!(record.record_time, 1_700_000_000_123);
}

#[test]
fn identifiers_are_written_in_lower_case_with_leading_zeros() {
    let record = capture(request(Some(0)), Ok(vec![plan_row(1, "UPDATE", "t", None)]), u128::MAX, 0)
        .unwrap();
    assert_eq!(record.id, "ffffffff-ffff-ffff-ffff-ffffffffffff");
    assert_eq!(record.txn_uuid, Some("00000000-0000-0000-0000-000000000000".to_owned()));
    let record = capture(
        request(Some(0xABCDEF)),
        Ok(vec![plan_row(1, "UPDATE", "t", None)]),
        0x9_0000_0000_0000_000a,
        0,
    )
    .unwrap();
    assert_eq!(record.id, "00000000-0000-0009-0000-00000000000a");
    assert_eq!(record.txn_uuid, Some("00000000-0000-0000-0000-000000abcdef".to_owned()));
}

#[test]
fn a_statement_outside_a_transaction_leaves_a_record_without_one() {
    let record = capture(request(None), Ok(vec![plan_row(1, "DELETE", "t", None)]), 1, 2).unwrap();
    assert_eq!(record.txn_uuid, None);
    assert_eq!(record.key, None);
    assert_eq!(record.record_time, 2);
}

#[test]
fn of_several_rows_the_first_is_taken() {
    let rows = vec![
        plan_row(1, "UPDATE", "first", Some("idx_a")),
        plan_row(2, "SIMPLE", "second", None),
        plan_row(3, "SIMPLE", "third", Some("idx_c")),
    ];
    let record = capture(request(None), Ok(rows), 1, 2).unwrap();
    assert_eq!(record.explain_id, 1);
    assert_eq!(record.select_type, "UPDATE");
    assert_eq!(record.table, "first");
    assert_eq!(record.key, Some("idx_a".to_owned()));
}

#[test]
fn an_answer_without_rows_leaves_no_record() {
    let result = capture(request(None), Ok(Vec::new()), 1, 2);
    assert!(matches!(result, Err(CaptureError::NoPlanRow)));
}

#[test]
fn a_failed_explain_leaves_no_record() {
    let result = capture(request(Some(1)), Err("You have an error in your SQL syntax".to_owned()), 1, 2);
    match result {
        Err(CaptureError::ExplainFailed { reason }) => {
            assert_eq!(reason, "You have an error in your SQL syntax")
        }
        other => panic!("unexpected {:?}", other),
    }
}

#[test]
fn a_captured_record_gets_a_random_identifier() {
    let record = BinlogListener::on_explained(
        request(Some(0xa1a2a3a4b1b2c1c2d1d2d3d4d5d6d7d8)),
        Ok(vec![plan_row(1, "UPDATE", "t", None)]),
        5,
    )
    .unwrap();
    let id: Vec<char> = record.id.chars().collect();
    assert_eq!(id.len(), 36);
    for (i, c) in id.iter().enumerate() {
        if i == 8 || i == 13 || i == 18 || i == 23 {
            assert_eq!(*c, '-');
        } else {
            assert!(c.is_ascii_digit() || ('a'..='f').contains(c));
        }
    }
    assert_eq!(id[14], '4');
    assert!(matches!(id[19], '8' | '9' | 'a' | 'b'));
    assert_eq!(record.txn_uuid, Some("a1a2a3a4-b1b2-c1c2-d1d2-d3d4d5d6d7d8".to_owned()));
    assert_eq!(record.record_time, 5);
    assert_eq!(record.query, "UPDATE t SET x=1");
}

#[test]
fn two_captures_get_different_identifiers() {
    let one = BinlogListener::on_explained(request(None), Ok(vec![plan_row(1, "UPDATE", "t", None)]), 5)
        .unwrap();
    let other = BinlogListener::on_explained(request(None), Ok(vec![plan_row(1, "UPDATE", "t", None)]), 5)
        .unwrap();
    assert_ne!(one.id, other.id);
}

#[test]
fn on_explained_passes_failures_on() {
    assert!(matches!(
        BinlogListener::on_explained(request(None), Ok(Vec::new()), 5),
        Err(CaptureError::NoPlanRow)
    ));
    match BinlogListener::on_explained(request(None), Err("gone away".to_owned()), 5) {
        Err(CaptureError::ExplainFailed { reason }) => assert_eq!(reason, "gone away"),
        other => panic!("unexpected {:?}", other),
    }
}
