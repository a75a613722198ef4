use std::sync::atomic::{AtomicIsize, Ordering};
use std::sync::Arc;

use modular_agents::agent::AgentRunStatus;
use modular_agents::agent_program::{
    complete_outcome, may_complete, signal_is_abort, start_outcome, AgentProgramError, AtomicSignalAlgebra, MoveAction, MoveEvent,
    MoveSchedulerLoop, Signal,
};

#[test]
fn completing_a_program_gives_its_data_only_on_success() {
    let r: Result<u32, AgentProgramError<()>> = complete_outcome(Ok(AgentRunStatus::Success), 7);
    assert!(matches!(r, Ok(7)));
    let r: Result<u32, AgentProgramError<()>> =
        complete_outcome(Ok(AgentRunStatus::FailedToStart(String::from("no"))), 7);
    match r {
        Err(AgentProgramError::AgentRunError(st)) => assert_eq!(st, AgentRunStatus::FailedToStart(String::from("no"))),
        _ => panic!("expected a run error"),
    }
    let r: Result<u32, AgentProgramError<()>> = complete_outcome(Err(String::from("join failed")), 7);
    match r {
        Err(AgentProgramError::AgentErrorState(e)) => assert_eq!(e, "join failed"),
        _ => panic!("expected an error state"),
    }
}

#[test]
fn signal_algebra_sets_and_clears_bits() {
    let signal = Arc::new(AtomicIsize::new(0));
    assert_eq!(AtomicSignalAlgebra::release_or(&signal, 0b0110), 0);
    assert_eq!(signal.load(Ordering::Relaxed), 0b0110);
    assert_eq!(AtomicSignalAlgebra::acquire_and(&signal, 0b0100), 0b0110);
    assert_eq!(signal.load(Ordering::Relaxed), 0b0100);
    AtomicSignalAlgebra::release_or(&signal, Signal::ABORT);
    assert!(signal_is_abort(signal.load(Ordering::Relaxed)));
}

#[test]
fn any_set_bit_is_an_abort_signal() {
    assert_eq!(Signal::ABORT, isize::MAX);
    assert!(!signal_is_abort(0));
    assert!(signal_is_abort(1));
    assert!(signal_is_abort(-1));
    assert!(signal_is_abort(0 | Signal::ABORT));
}

#[test]
fn move_loop_restarts_each_round_from_the_start_state_and_stops_on_a_signal() {
    let mut l = MoveSchedulerLoop::new();
    assert_eq!(l.next_action(), MoveAction::PublishData);
    l.step(MoveEvent::DataPublished(true));
    assert_eq!(l.next_action(), MoveAction::PublishPermits);
    l.step(MoveEvent::PermitsPublished(true));
    assert_eq!(l.next_action(), MoveAction::LoadSignal);
    l.step(MoveEvent::Signal(0));
    assert_eq!(l.next_action(), MoveAction::AcquirePermit);
    l.step(MoveEvent::PermitAcquired);
    assert_eq!(l.next_action(), MoveAction::AdvanceFromStart);
    l.step(MoveEvent::Advanced(true));
    assert_eq!(l.next_action(), MoveAction::QueryAbortState);
    l.step(MoveEvent::AbortState(false));
    assert_eq!(l.next_action(), MoveAction::AdvanceCurrent);
    l.step(MoveEvent::Advanced(false));
    assert_eq!(l.next_action(), MoveAction::LoadSignal);
    l.step(MoveEvent::Signal(0));
    assert_eq!(l.next_action(), MoveAction::LoadSignal);
    l.step(MoveEvent::Signal(0));
    l.step(MoveEvent::PermitAcquired);
    assert_eq!(l.next_action(), MoveAction::AdvanceFromStart);
    l.step(MoveEvent::Advanced(true));
    l.step(MoveEvent::AbortState(true));
    assert_eq!(l.next_action(), MoveAction::LoadSignal);
    l.step(MoveEvent::Signal(Signal::ABORT));
    assert_eq!(l.next_action(), MoveAction::ReturnData);
}

#[test]
fn move_loop_hands_the_data_back_when_publishing_fails() {
    let mut l = MoveSchedulerLoop::new();
    l.step(MoveEvent::DataPublished(false));
    assert_eq!(l.next_action(), MoveAction::ReturnData);
    let mut l = MoveSchedulerLoop::new();
    l.step(MoveEvent::DataPublished(true));
    l.step(MoveEvent::PermitsPublished(false));
    assert_eq!(l.next_action(), MoveAction::ReturnData);
}

#[test]
fn starting_without_an_agent_reference_is_no_ref() {
    let r: Result<u8, AgentProgramError<()>> = start_outcome(Some(3));
    assert!(matches!(r, Ok(3)));
    let r: Result<u8, AgentProgramError<()>> = start_outcome(None);
    assert!(matches!(r, Err(AgentProgramError::NoRef)));
}

#[test]
fn a_program_completes_only_when_it_holds_the_only_reference() {
    assert!(may_complete(1));
    assert!(!may_complete(2));
    assert!(!may_complete(5));
}
