//! Query-quality auditing over a database's replication stream.
//!
//! The library holds the decisions of the audit pipeline: which statements
//! open and close a transaction, which statements are explained, how a
//! planner row becomes an explain record, and what each rule concludes of a
//! record. Reading the stream, running `EXPLAIN` and writing to the result
//! store are left to the caller, who hands events in and carries requests out.

pub mod analyzers;
pub mod clock;
pub mod domain;
pub mod failure;
pub mod listener;
pub mod pipeline;
pub mod position;
pub mod report;
pub mod statement;
pub mod token;
pub mod trace;
pub mod tracker;

