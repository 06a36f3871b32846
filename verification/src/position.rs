//! Where the listener starts to follow the replication stream: at the end of
//! the most recent log, so that it sees what happens from now on.

use vstd::prelude::*;

verus! {

/// One row of the source's list of binary logs.
#[derive(Debug)]
pub struct BinLogRow {
    pub log_name: String,
    pub file_size: u64,
    pub encrypted: String,
}

/// The place in the stream to start from.
#[derive(Debug)]
pub struct StreamStart {
    /// The id under which the listener registers with the source.
    pub server_id: u32,
    /// The log to read.
    pub filename: String,
    /// The offset in the log to read from.
    pub position: u64,
}

/// The id under which the listener registers with the source.
pub const LISTENER_SERVER_ID: u32 = 1;

/// The place to start from, given the source's logs in the order the source
/// lists them: the end of the last log. Without a log there is no place to
/// start.
pub fn start_of_stream(logs: Vec<BinLogRow>) -> (start: Option<StreamStart>)
    ensures
        logs@.len() == 0 ==> start is None,
        logs@.len() > 0 ==> (start matches Some(s) && s.server_id == LISTENER_SERVER_ID
            && s.filename@ == logs@.last().log_name@ && s.position == logs@.last().file_size),
{
    let mut logs = logs;
    match logs.pop() {
        Some(latest) => Some(
            StreamStart {
                server_id: LISTENER_SERVER_ID,
                filename: latest.log_name,
                position: latest.file_size,
            },
        ),
        None => None,
    }
}

} // verus!
