use explain_audit::position::{start_of_stream, BinLogRow, LISTENER_SERVER_ID};

fn log(log_name: &str, file_size: u64) -> BinLogRow {
    BinLogRow { log_name: log_name.to_owned(), file_size, encrypted: "No".to_owned() }
}

#[test]
fn without_a_log_there_is_no_place_to_start() {
    assert!(start_of_stream(Vec::new()).is_none());
}

#[test]
fn the_stream_starts_at_the_end_of_the_only_log() {
    let start = start_of_stream(vec![log("binlog.000001", 157)]).unwrap();
    assert_eq!(start.server_id, 1);
    assert_eq!(start.server_id, LISTENER_SERVER_ID);
    assert_eq!(start.filename, "binlog.000001");
    assert_eq!(start.position, 157);
}

#[test]
fn the_stream_starts_at_the_end_of_the_last_log() {
    let start = start_of_stream(vec![
        log("binlog.000007", 9_000),
        log("binlog.000008", 1_024),
        log("binlog.000009", 4),
    ])
    .unwrap();
    assert_eq!(start.filename, "binlog.000009");
    assert_eq!(start.position, 4);
}
