use vstd::prelude::*;

verus! {

/// Why a caller ends up without a value.
#[derive(Debug, Clone, Copy, PartialEq, Eq, Structural)]
pub enum ExecutorError {
    /// The backend refused the unit of work when it was handed over. Reported by
    /// the spawn operation itself, never later.
    AdmissionRejected,
    /// The work was admitted but its output never arrived: it ended abnormally, or
    /// its driver was cancelled first. Reported only when the carrier is awaited.
    ResultUnavailable,
}

impl ExecutorError {
    /// A short description of the error, for messages.
    pub fn message(&self) -> (text: String)
        ensures
            text@ == (match *self {
                ExecutorError::AdmissionRejected => "the executor refused the task"@,
                ExecutorError::ResultUnavailable => "the task ended without an output"@,
            }),
    {
        match self {
            ExecutorError::AdmissionRejected => "the executor refused the task".to_string(),
            ExecutorError::ResultUnavailable => "the task ended without an output".to_string(),
        }
    }
}

} // verus!
