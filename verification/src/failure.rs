//! The failures that the pipeline meets, and how it goes on after each.

use crate::analyzers::AnalyzerError;
use crate::listener::CaptureError;
use vstd::prelude::*;

verus! {

/// A failure, by what it costs.
#[derive(Debug)]
pub enum Failure {
    /// The replication stream broke, or the place to start from could not be
    /// found.
    Stream { reason: String },
    /// One statement left no record.
    Statement(CaptureError),
    /// One rule could not judge a record, or its verdict could not be stored.
    Analyzer(AnalyzerError),
    /// The result store could not be reached.
    Storage { reason: String },
}

/// How the pipeline goes on after a failure.
#[derive(Debug, Clone, Copy, PartialEq, Eq, Structural)]
pub enum Course {
    /// The pipeline ends; the failure goes to the caller.
    Terminate,
    /// The statement is dropped without a record, and the next event is taken.
    NextStatement,
    /// The rule is passed over; the other rules and the next event go on.
    NextAnalyzer,
    /// The failure goes to the caller, who decides whether to stop or retry.
    Surface,
}

impl Failure {
    /// How the pipeline goes on after the failure: a broken stream ends it,
    /// a statement or a rule that failed costs that statement or that rule
    /// only, and an unreachable store is for the caller to decide.
    pub open spec fn course_of(self) -> Course {
        match self {
            Failure::Stream { .. } => Course::Terminate,
            Failure::Statement(_) => Course::NextStatement,
            Failure::Analyzer(_) => Course::NextAnalyzer,
            Failure::Storage { .. } => Course::Surface,
        }
    }

    /// How the pipeline goes on after the failure.
    pub fn course(&self) -> (course: Course)
        ensures
            course == self.course_of(),
    {
        match self {
            Failure::Stream { .. } => Course::Terminate,
            Failure::Statement(_) => Course::NextStatement,
            Failure::Analyzer(_) => Course::NextAnalyzer,
            Failure::Storage { .. } => Course::Surface,
        }
    }
}

} // verus!
