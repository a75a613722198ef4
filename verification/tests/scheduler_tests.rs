use std::sync::atomic::{AtomicBool, AtomicUsize, Ordering};
use std::sync::{Arc, Mutex};

use modular_agents::agent::AgentRunStatus;
use modular_agents::scheduler::{AgentScheduler, SchedulerAction, SchedulerEvent};
use modular_agents::state::{AgentStateMachine, State};

/// Runs the scheduler loop on this thread until it finishes, or until it
/// waits for a permit and none is left (then `None`).
fn drive<T, S: State<T>>(
    sched: &mut AgentScheduler,
    machine: &mut AgentStateMachine<T, S>,
    data: &Arc<T>,
    abort: &AtomicBool,
    permits: &mut usize,
    advances: &mut usize,
) -> Option<AgentRunStatus> {
    loop {
        let event = match sched.next_action() {
            SchedulerAction::SendPermits => SchedulerEvent::PermitsSent(Ok(())),
            SchedulerAction::LoadAbortFlag => SchedulerEvent::AbortFlag(abort.load(Ordering::Relaxed)),
            SchedulerAction::AcquirePermit => {
                if *permits == 0 {
                    return None;
                }
                *permits -= 1;
                SchedulerEvent::PermitAcquired
            }
            SchedulerAction::AdvanceState => {
                *advances += 1;
                SchedulerEvent::Advanced(machine.advance_state_clone(data))
            }
            SchedulerAction::QueryAbortState => SchedulerEvent::AbortState(machine.is_abort_state()),
            SchedulerAction::StoreAbortFlag => {
                abort.store(true, Ordering::Relaxed);
                SchedulerEvent::AbortFlagStored
            }
            SchedulerAction::Finish(status) => return Some(status),
        };
        sched.step(event);
    }
}

struct AgentData {
    my_stored_val: AtomicUsize,
}

#[derive(Debug)]
enum TwoStates {
    Start,
    Finish,
}

impl State<AgentData> for TwoStates {
    fn pick_and_execute_an_action(self: Arc<Self>, data: &Arc<AgentData>) -> Option<Arc<Self>> {
        match *self {
            TwoStates::Start => Some(Arc::new(TwoStates::Finish)),
            TwoStates::Finish => {
                if data.my_stored_val.load(Ordering::Relaxed) > 0 {
                    data.my_stored_val.fetch_sub(1, Ordering::Relaxed);
                    return Some(self);
                }
                None
            }
        }
    }
}

#[test]
fn one_permit_runs_the_states_until_no_work_is_left_then_abort_ends_in_success() {
    let data = Arc::new(AgentData { my_stored_val: AtomicUsize::new(10) });
    let mut machine = AgentStateMachine::new(Arc::new(TwoStates::Start));
    let mut sched = AgentScheduler::new();
    let abort = AtomicBool::new(false);
    let mut permits = 1;
    let mut advances = 0;
    // The state changed once: the loop works until no work is left, then waits.
    assert!(drive(&mut sched, &mut machine, &data, &abort, &mut permits, &mut advances).is_none());
    assert_eq!(data.my_stored_val.load(Ordering::Relaxed), 0);
    // start -> finish, ten decrements, then an operation with no next state.
    assert_eq!(advances, 12);
    assert!(!sched.is_finished());
    // Aborting sets the flag and releases a permit to wake the loop.
    abort.store(true, Ordering::Relaxed);
    permits += 1;
    let status = drive(&mut sched, &mut machine, &data, &abort, &mut permits, &mut advances);
    assert_eq!(status, Some(AgentRunStatus::Success));
    assert!(sched.is_finished());
    // The permit that the abort released ran no further state operation.
    assert_eq!(advances, 12);
}

#[test]
fn a_permit_is_followed_by_a_read_of_the_abort_flag_before_any_work() {
    let mut sched = AgentScheduler::new();
    sched.step(SchedulerEvent::PermitsSent(Ok(())));
    sched.step(SchedulerEvent::AbortFlag(false));
    assert!(matches!(sched.next_action(), SchedulerAction::AcquirePermit));
    sched.step(SchedulerEvent::PermitAcquired);
    assert!(matches!(sched.next_action(), SchedulerAction::LoadAbortFlag));
    sched.step(SchedulerEvent::AbortFlag(false));
    assert!(matches!(sched.next_action(), SchedulerAction::AdvanceState));
}

#[test]
fn the_loop_does_not_advance_without_a_permit() {
    let data = Arc::new(AgentData { my_stored_val: AtomicUsize::new(10) });
    let mut machine = AgentStateMachine::new(Arc::new(TwoStates::Start));
    let mut sched = AgentScheduler::new();
    let abort = AtomicBool::new(false);
    let mut permits = 0;
    let mut advances = 0;
    assert!(drive(&mut sched, &mut machine, &data, &abort, &mut permits, &mut advances).is_none());
    assert_eq!(advances, 0);
    assert_eq!(data.my_stored_val.load(Ordering::Relaxed), 10);
}

#[test]
fn an_abort_flag_set_before_the_start_ends_the_loop_at_once() {
    let data = Arc::new(AgentData { my_stored_val: AtomicUsize::new(10) });
    let mut machine = AgentStateMachine::new(Arc::new(TwoStates::Start));
    let mut sched = AgentScheduler::new();
    let abort = AtomicBool::new(true);
    let mut permits = 5;
    let mut advances = 0;
    let status = drive(&mut sched, &mut machine, &data, &abort, &mut permits, &mut advances);
    assert_eq!(status, Some(AgentRunStatus::Success));
    assert_eq!(advances, 0);
    assert_eq!(permits, 5);
}

#[test]
fn a_failed_hand_over_of_the_permit_store_ends_with_its_reason() {
    let mut sched = AgentScheduler::new();
    assert!(matches!(sched.next_action(), SchedulerAction::SendPermits));
    sched.step(SchedulerEvent::PermitsSent(Err(String::from("receiver gone"))));
    assert!(sched.is_finished());
    match sched.next_action() {
        SchedulerAction::Finish(status) => {
            assert_eq!(status, AgentRunStatus::FailedToStart(String::from("receiver gone")))
        }
        other => panic!("unexpected action {:?}", other),
    }
    // Finished is final.
    sched.step(SchedulerEvent::AbortFlag(false));
    sched.step(SchedulerEvent::PermitAcquired);
    assert!(sched.is_finished());
}

#[test]
fn an_event_that_does_not_answer_is_ignored() {
    let mut sched = AgentScheduler::new();
    sched.step(SchedulerEvent::PermitAcquired);
    assert!(matches!(sched.next_action(), SchedulerAction::SendPermits));
    sched.step(SchedulerEvent::PermitsSent(Ok(())));
    sched.step(SchedulerEvent::Advanced(true));
    assert!(matches!(sched.next_action(), SchedulerAction::LoadAbortFlag));
}

struct AgentStringData {
    my_stored_val: Arc<Mutex<String>>,
}

#[derive(Debug)]
enum StringStates {
    Work,
    Finish,
}

impl State<AgentStringData> for StringStates {
    fn pick_and_execute_an_action(self: Arc<Self>, data: &Arc<AgentStringData>) -> Option<Arc<Self>> {
        match *self {
            StringStates::Work => {
                let mut s = data.my_stored_val.lock().unwrap();
                let n = s.len() - 1;
                if n == 0 {
                    return Some(Arc::new(StringStates::Finish));
                }
                let _ = s.split_off(n);
                if s.len() > 0 {
                    Some(Arc::new(StringStates::Work))
                } else {
                    Some(Arc::new(StringStates::Finish))
                }
            }
            StringStates::Finish => None,
        }
    }

    fn is_abort_state(&self) -> bool {
        matches!(self, StringStates::Finish)
    }
}

#[test]
fn an_abort_state_ends_the_loop_without_an_outside_abort() {
    let data = Arc::new(AgentStringData {
        my_stored_val: Arc::new(Mutex::new(String::from("this is the string to process"))),
    });
    let mut machine = AgentStateMachine::new(Arc::new(StringStates::Work));
    let mut sched = AgentScheduler::new();
    let abort = AtomicBool::new(false);
    let mut permits = 1;
    let mut advances = 0;
    let status = drive(&mut sched, &mut machine, &data, &abort, &mut permits, &mut advances);
    assert_eq!(status, Some(AgentRunStatus::Success));
    assert!(abort.load(Ordering::Relaxed));
    assert_eq!(*data.my_stored_val.lock().unwrap(), "t");
}
