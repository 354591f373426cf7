use vstd::prelude::*;

verus! {

/// A trigger for one resource-offer cycle.
#[derive(PartialEq, Eq, Structural, Clone, Copy, Debug)]
pub enum SchedulerServerEvent {
    /// Reconsider scheduling, asking for up to this many tasks.
    ReviveOffers(u32),
}

/// Why an offer cycle was aborted.
#[derive(Clone, Debug, PartialEq, Eq)]
pub enum SchedulerError {
    /// The executor registry could not be read.
    Registry(String),
    /// The scheduling policy failed.
    Policy(String),
    /// The policy's answer does not line up, position by position, with the
    /// capacity snapshot it was given.
    InconsistentAssignment,
    /// Sending the task list to this executor failed.
    Launch { executor_id: String, message: String },
}

impl SchedulerError {
    /// A copy of this error.
    pub fn clone_error(&self) -> (r: Self)
        ensures
            r == *self,
    {
        match self {
            SchedulerError::Registry(m) => SchedulerError::Registry(m.clone()),
            SchedulerError::Policy(m) => SchedulerError::Policy(m.clone()),
            SchedulerError::InconsistentAssignment => SchedulerError::InconsistentAssignment,
            SchedulerError::Launch { executor_id, message } => SchedulerError::Launch {
                executor_id: executor_id.clone(),
                message: message.clone(),
            },
        }
    }
}

} // verus!
