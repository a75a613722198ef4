//! How an agent's run ends, how its thread stands, and the decisions an agent
//! makes about its scheduler thread.
use vstd::prelude::*;

verus! {

/// How an agent's scheduler thread ended.
#[derive(Debug, PartialEq)]
pub enum AgentRunStatus {
    /// The thread could not hand its permit store to the agent; holds the reason.
    FailedToStart(String),
    /// The permit store never arrived and joining the thread failed too.
    FailedToJoinAndRecievePermitStore(String),
    /// The permit store never arrived; the thread was joined.
    FailedToRecievePermitStore(String),
    /// The scheduler ran until it was aborted.
    Success,
}

/// A copy of a run status.
pub fn clone_status(s: &AgentRunStatus) -> (c: AgentRunStatus)
    ensures
        c == *s,
{
    match s {
        AgentRunStatus::FailedToStart(m) => AgentRunStatus::FailedToStart(m.clone()),
        AgentRunStatus::FailedToJoinAndRecievePermitStore(m) => AgentRunStatus::FailedToJoinAndRecievePermitStore(m.clone()),
        AgentRunStatus::FailedToRecievePermitStore(m) => AgentRunStatus::FailedToRecievePermitStore(m.clone()),
        AgentRunStatus::Success => AgentRunStatus::Success,
    }
}

/// Where an agent's scheduler thread is.
#[derive(Debug, PartialEq, Eq, Structural, Clone, Copy)]
pub enum AgentThreadStatus {
    NonStarted,
    RunningNotJoined,
    Joined,
}

/// The thread status of an agent, given whether it holds a thread handle and,
/// if it does, whether that thread has finished.
pub fn thread_status(handle_finished: Option<bool>) -> (status: AgentThreadStatus)
    ensures
        status == (match handle_finished {
            None => AgentThreadStatus::NonStarted,
            Some(true) => AgentThreadStatus::Joined,
            Some(false) => AgentThreadStatus::RunningNotJoined,
        }),
{
    match handle_finished {
        Some(finished) => {
            if finished {
                AgentThreadStatus::Joined
            } else {
                AgentThreadStatus::RunningNotJoined
            }
        },
        None => AgentThreadStatus::NonStarted,
    }
}

/// An agent holds a valid thread when it has a thread handle and a permit
/// store, and no run status was recorded (a run status records a failed start).
pub fn valid_handle(has_handle: bool, has_run_status: bool, has_permit_store: bool) -> (valid: bool)
    ensures
        valid == (has_handle && !has_run_status && has_permit_store),
{
    has_handle && !has_run_status && has_permit_store
}

/// The run status an agent records when its thread never handed over the
/// permit store: the outcome of joining the thread, each side carrying the
/// message that describes it.
pub fn start_failure_status(join: Result<String, String>) -> (status: AgentRunStatus)
    ensures
        status == (match join {
            Ok(m) => AgentRunStatus::FailedToRecievePermitStore(m),
            Err(m) => AgentRunStatus::FailedToJoinAndRecievePermitStore(m),
        }),
{
    match join {
        Ok(m) => AgentRunStatus::FailedToRecievePermitStore(m),
        Err(m) => AgentRunStatus::FailedToJoinAndRecievePermitStore(m),
    }
}

/// What finishing an agent yields: the outcome of joining its thread when it
/// had one, else an error that says there was nothing to join.
pub fn finish_outcome(
    joined: Option<Result<AgentRunStatus, String>>,
    nothing_to_join: String,
) -> (outcome: Result<AgentRunStatus, String>)
    ensures
        outcome == (match joined {
            Some(r) => r,
            None => Err(nothing_to_join),
        }),
{
    match joined {
        Some(r) => r,
        None => Err(nothing_to_join),
    }
}

} // verus!
