//! What can go wrong: in a unit of work, and in a cron expression.

use vstd::prelude::*;
use vstd::string::*;

verus! {

/// The failure that a callable unit of work reports.
#[derive(Debug, Clone, PartialEq, Eq)]
pub enum DriftError {
    /// The job failed; the text is the message of the error it met.
    JobError(String),
}

impl DriftError {
    /// The message of the error the job met.
    pub open spec fn inner(&self) -> Seq<char> {
        match self {
            DriftError::JobError(inner) => inner@,
        }
    }

    /// The failure as one line of text.
    pub fn message(&self) -> (r: String)
        ensures
            r@ == "job failed with inner error: "@ + self.inner(),
    {
        match self {
            DriftError::JobError(inner) => {
                String::from_str("job failed with inner error: ").concat(inner.as_str())
            },
        }
    }
}

/// The failure of one execution, whatever kind of work was run.
#[derive(Debug, Clone, PartialEq, Eq)]
pub enum ExecutionError {
    /// The work returned a failure, kept here as it came.
    JobFailed(DriftError),
}

impl ExecutionError {
    /// The failure as one line of text.
    pub fn message(&self) -> (r: String)
        ensures
            self matches ExecutionError::JobFailed(e) && r@
                == "job failed with inner error: "@ + e.inner(),
    {
        match self {
            ExecutionError::JobFailed(e) => e.message(),
        }
    }
}

/// What a callable's result is as the result of an execution: success stays
/// success, and a failure becomes `JobFailed` around the failure as it was.
pub fn job_result(outcome: Result<(), DriftError>) -> (r: Result<(), ExecutionError>)
    ensures
        r == match outcome {
            Ok(()) => Ok::<(), ExecutionError>(()),
            Err(e) => Err::<(), ExecutionError>(ExecutionError::JobFailed(e)),
        },
{
    match outcome {
        Ok(()) => Ok(()),
        Err(e) => Err(ExecutionError::JobFailed(e)),
    }
}

/// A cron expression that could not be read.
#[derive(Debug, Clone, PartialEq, Eq)]
pub struct ParseError {
    /// What the parser said of the expression.
    pub message: String,
}

} // verus!
