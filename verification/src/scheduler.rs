//! The decisions of an agent's scheduler thread, as a state machine.
//!
//! The thread first hands its permit store to the agent. Then, until the abort
//! flag is set, it waits for a permit, advances the agent's state machine as
//! long as the states report more work and the flag stays clear, and raises
//! the flag itself when the machine stops in an abort state. The thread that
//! runs the loop performs each action and reports what came of it.
use crate::agent::{clone_status, AgentRunStatus};
use vstd::prelude::*;

verus! {

/// Where the scheduler loop stands: each phase waits for the outcome of one action.
#[derive(Debug)]
pub enum SchedulerPhase {
    /// The permit store is being handed to the agent.
    SendingPermits,
    /// The loop head: the abort flag is read.
    CheckingAbort,
    /// Waiting for a permit.
    AwaitingPermit,
    /// A permit was taken; the abort flag is read before any work, so that
    /// the permit an abort releases runs nothing.
    CheckingAfterPermit,
    /// The state machine is advanced by one scheduler operation.
    Advancing,
    /// After an operation with more work, the abort flag is read again.
    CheckingContinue,
    /// The state machine is asked whether it stopped in an abort state.
    QueryingAbortState,
    /// The abort flag is being set.
    StoringAbort,
    /// The loop is over; the thread ends with this status.
    Finished(AgentRunStatus),
}

/// What the thread running the loop reports back.
#[derive(Debug)]
pub enum SchedulerEvent {
    /// The permit store was handed over, or the reason it could not be.
    PermitsSent(Result<(), String>),
    /// The value of the abort flag.
    AbortFlag(bool),
    /// A permit was taken.
    PermitAcquired,
    /// A scheduler operation ran; whether it returned a next state.
    Advanced(bool),
    /// Whether the current state is an abort state.
    AbortState(bool),
    /// The abort flag was set.
    AbortFlagStored,
}

/// What the thread running the loop must do next.
#[derive(Debug)]
pub enum SchedulerAction {
    SendPermits,
    LoadAbortFlag,
    AcquirePermit,
    AdvanceState,
    QueryAbortState,
    StoreAbortFlag,
    /// End the thread with this status.
    Finish(AgentRunStatus),
}

/// The action that a phase waits on.
pub open spec fn phase_action(p: SchedulerPhase) -> SchedulerAction {
    match p {
        SchedulerPhase::SendingPermits => SchedulerAction::SendPermits,
        SchedulerPhase::CheckingAbort => SchedulerAction::LoadAbortFlag,
        SchedulerPhase::AwaitingPermit => SchedulerAction::AcquirePermit,
        SchedulerPhase::CheckingAfterPermit => SchedulerAction::LoadAbortFlag,
        SchedulerPhase::Advancing => SchedulerAction::AdvanceState,
        SchedulerPhase::CheckingContinue => SchedulerAction::LoadAbortFlag,
        SchedulerPhase::QueryingAbortState => SchedulerAction::QueryAbortState,
        SchedulerPhase::StoringAbort => SchedulerAction::StoreAbortFlag,
        SchedulerPhase::Finished(s) => SchedulerAction::Finish(s),
    }
}

/// The phase after an event. An event that does not answer the action the
/// phase waits on leaves the phase as it is.
pub open spec fn next_phase(p: SchedulerPhase, e: SchedulerEvent) -> SchedulerPhase {
    match (p, e) {
        (SchedulerPhase::SendingPermits, SchedulerEvent::PermitsSent(r)) => match r {
            Ok(_) => SchedulerPhase::CheckingAbort,
            Err(m) => SchedulerPhase::Finished(AgentRunStatus::FailedToStart(m)),
        },
        (SchedulerPhase::CheckingAbort, SchedulerEvent::AbortFlag(set)) => if set {
            SchedulerPhase::Finished(AgentRunStatus::Success)
        } else {
            SchedulerPhase::AwaitingPermit
        },
        (SchedulerPhase::AwaitingPermit, SchedulerEvent::PermitAcquired) => SchedulerPhase::CheckingAfterPermit,
        (SchedulerPhase::CheckingAfterPermit, SchedulerEvent::AbortFlag(set)) => if set {
            SchedulerPhase::Finished(AgentRunStatus::Success)
        } else {
            SchedulerPhase::Advancing
        },
        (SchedulerPhase::Advancing, SchedulerEvent::Advanced(more)) => if more {
            SchedulerPhase::CheckingContinue
        } else {
            SchedulerPhase::QueryingAbortState
        },
        (SchedulerPhase::CheckingContinue, SchedulerEvent::AbortFlag(set)) => if set {
            SchedulerPhase::QueryingAbortState
        } else {
            SchedulerPhase::Advancing
        },
        (SchedulerPhase::QueryingAbortState, SchedulerEvent::AbortState(abort)) => if abort {
            SchedulerPhase::StoringAbort
        } else {
            SchedulerPhase::CheckingAbort
        },
        (SchedulerPhase::StoringAbort, SchedulerEvent::AbortFlagStored) => SchedulerPhase::CheckingAbort,
        (p, _) => p,
    }
}

/// The phase after a sequence of events, taken in order.
pub open spec fn run_events(p: SchedulerPhase, events: Seq<SchedulerEvent>) -> SchedulerPhase
    decreases events.len(),
{
    if events.len() == 0 {
        p
    } else {
        run_events(next_phase(p, events[0]), events.drop_first())
    }
}

/// The phase of a fresh scheduler after the first `i` events.
pub open spec fn phase_at(events: Seq<SchedulerEvent>, i: int) -> SchedulerPhase {
    run_events(SchedulerPhase::SendingPermits, events.take(i))
}

/// Whether the scheduler holds the permit of the current round in this phase.
pub open spec fn holds_permit(p: SchedulerPhase) -> bool {
    p is CheckingAfterPermit || p is Advancing || p is CheckingContinue
}

/// Whether an event is the outcome of the action that the phase waits on.
pub open spec fn answers(p: SchedulerPhase, e: SchedulerEvent) -> bool {
    match (p, e) {
        (SchedulerPhase::SendingPermits, SchedulerEvent::PermitsSent(_)) => true,
        (SchedulerPhase::CheckingAbort, SchedulerEvent::AbortFlag(_)) => true,
        (SchedulerPhase::AwaitingPermit, SchedulerEvent::PermitAcquired) => true,
        (SchedulerPhase::CheckingAfterPermit, SchedulerEvent::AbortFlag(_)) => true,
        (SchedulerPhase::Advancing, SchedulerEvent::Advanced(_)) => true,
        (SchedulerPhase::CheckingContinue, SchedulerEvent::AbortFlag(_)) => true,
        (SchedulerPhase::QueryingAbortState, SchedulerEvent::AbortState(_)) => true,
        (SchedulerPhase::StoringAbort, SchedulerEvent::AbortFlagStored) => true,
        _ => false,
    }
}

/// Whether each event answers the action it follows, and every read of the
/// abort flag finds it set.
pub open spec fn answered_with_abort_set(p: SchedulerPhase, events: Seq<SchedulerEvent>) -> bool
    decreases events.len(),
{
    events.len() == 0 || {
        &&& answers(p, events[0])
        &&& events[0] != SchedulerEvent::AbortFlag(false)
        &&& answered_with_abort_set(next_phase(p, events[0]), events.drop_first())
    }
}

/// How many answered events a phase of the loop needs, at most, to finish
/// once the abort flag is set.
pub open spec fn events_to_abort(p: SchedulerPhase) -> nat {
    match p {
        SchedulerPhase::SendingPermits => 0,
        SchedulerPhase::CheckingAbort => 1,
        SchedulerPhase::StoringAbort => 2,
        SchedulerPhase::QueryingAbortState => 3,
        SchedulerPhase::CheckingContinue => 4,
        SchedulerPhase::Advancing => 5,
        SchedulerPhase::CheckingAfterPermit => 1,
        SchedulerPhase::AwaitingPermit => 2,
        SchedulerPhase::Finished(_) => 0,
    }
}

/// Whether a phase belongs to the loop proper: the permit store was handed
/// over and the loop is not over.
pub open spec fn in_loop(p: SchedulerPhase) -> bool {
    !(p is SendingPermits) && !(p is Finished)
}

/// An event that does not answer the pending action changes nothing.
pub proof fn lemma_unanswered_event_is_ignored(p: SchedulerPhase, e: SchedulerEvent)
    requires
        !answers(p, e),
    ensures
        next_phase(p, e) == p,
{
}

/// Once the loop is over it stays over, with the same status, whatever is reported.
pub proof fn lemma_finished_is_final(s: AgentRunStatus, events: Seq<SchedulerEvent>)
    ensures
        run_events(SchedulerPhase::Finished(s), events) == SchedulerPhase::Finished(s),
    decreases events.len(),
{
    if events.len() > 0 {
        lemma_finished_is_final(s, events.drop_first());
    }
}

proof fn lemma_loop_ends_in_success(p: SchedulerPhase, events: Seq<SchedulerEvent>)
    requires
        in_loop(p),
    ensures
        run_events(p, events) is Finished ==> run_events(p, events) == SchedulerPhase::Finished(AgentRunStatus::Success),
        in_loop(run_events(p, events)) || run_events(p, events) is Finished,
    decreases events.len(),
{
    if events.len() > 0 {
        let q = next_phase(p, events[0]);
        if q is Finished {
            assert(q == SchedulerPhase::Finished(AgentRunStatus::Success));
            lemma_finished_is_final(AgentRunStatus::Success, events.drop_first());
        } else {
            lemma_loop_ends_in_success(q, events.drop_first());
        }
    }
}

/// The thread ends with `Success` unless handing over its permit store failed,
/// in which case it ends with `FailedToStart` and the reason that the first
/// report on the hand-over carried.
pub proof fn lemma_run_outcome(events: Seq<SchedulerEvent>)
    ensures
        run_events(SchedulerPhase::SendingPermits, events) matches SchedulerPhase::Finished(st) ==> (
            st == AgentRunStatus::Success || (st is FailedToStart && exists|i: int|
                0 <= i < events.len() && events[i] == SchedulerEvent::PermitsSent(Err(st->FailedToStart_0))
                && forall|j: int| 0 <= j < i ==> !(#[trigger] events[j] is PermitsSent))),
    decreases events.len(),
{
    if events.len() > 0 {
        let q = next_phase(SchedulerPhase::SendingPermits, events[0]);
        let rest = events.drop_first();
        if q is Finished {
            lemma_finished_is_final(q->Finished_0, rest);
        } else if q is SendingPermits {
            lemma_run_outcome(rest);
            let r = run_events(q, rest);
            if r is Finished && r->Finished_0 is FailedToStart {
                let st = r->Finished_0;
                let i = choose|i: int|
                    0 <= i < rest.len() && rest[i] == SchedulerEvent::PermitsSent(Err(st->FailedToStart_0))
                    && forall|j: int| 0 <= j < i ==> !(#[trigger] rest[j] is PermitsSent);
                assert(events[i + 1] == rest[i]);
                assert forall|j: int| 0 <= j < i + 1 implies !(#[trigger] events[j] is PermitsSent) by {
                    if j > 0 {
                        assert(events[j] == rest[j - 1]);
                    }
                }
            }
        } else {
            lemma_loop_ends_in_success(q, rest);
        }
    }
}

proof fn lemma_run_events_push(p: SchedulerPhase, events: Seq<SchedulerEvent>, e: SchedulerEvent)
    ensures
        run_events(p, events.push(e)) == next_phase(run_events(p, events), e),
    decreases events.len(),
{
    reveal_with_fuel(run_events, 2);
    if events.len() == 0 {
        assert(events.push(e)[0] == e);
        assert(events.push(e).drop_first() =~= Seq::<SchedulerEvent>::empty());
    } else {
        assert(events.push(e)[0] == events[0]);
        assert(events.push(e).drop_first() =~= events.drop_first().push(e));
        lemma_run_events_push(next_phase(p, events[0]), events.drop_first(), e);
    }
}

/// The phase after `i + 1` events is the step from the phase after `i`.
pub proof fn lemma_phase_at_step(events: Seq<SchedulerEvent>, i: int)
    requires
        0 <= i < events.len(),
    ensures
        phase_at(events, i + 1) == next_phase(phase_at(events, i), events[i]),
{
    assert(events.take(i + 1) =~= events.take(i).push(events[i]));
    lemma_run_events_push(SchedulerPhase::SendingPermits, events.take(i), events[i]);
}

/// The scheduler only advances the state machine on a permit: whenever it
/// holds a round's permit, some earlier event was a permit taken while it
/// waited for one, and it has held the permit ever since.
pub proof fn lemma_advances_only_on_a_permit(events: Seq<SchedulerEvent>, i: int)
    requires
        0 <= i <= events.len(),
        holds_permit(phase_at(events, i)),
    ensures
        exists|j: int| #![trigger phase_at(events, j)]
            0 <= j < i
            && phase_at(events, j) is AwaitingPermit
            && events[j] is PermitAcquired
            && forall|k: int| j < k <= i ==> holds_permit(#[trigger] phase_at(events, k)),
    decreases i,
{
    if i == 0 {
        assert(events.take(0) =~= Seq::<SchedulerEvent>::empty());
        assert(phase_at(events, 0) == SchedulerPhase::SendingPermits);
    } else {
        lemma_phase_at_step(events, i - 1);
        let prev = phase_at(events, i - 1);
        if holds_permit(prev) {
            lemma_advances_only_on_a_permit(events, i - 1);
            let j = choose|j: int| #![trigger phase_at(events, j)]
                0 <= j < i - 1
                && phase_at(events, j) is AwaitingPermit
                && events[j] is PermitAcquired
                && forall|k: int| j < k <= i - 1 ==> holds_permit(#[trigger] phase_at(events, k));
            assert forall|k: int| j < k <= i implies holds_permit(#[trigger] phase_at(events, k)) by {}
        } else {
            assert(prev is AwaitingPermit && events[i - 1] is PermitAcquired);
            assert forall|k: int| i - 1 < k <= i implies holds_permit(#[trigger] phase_at(events, k)) by {
                assert(k == i);
            }
        }
    }
}

/// Once the abort flag is set, the loop finishes with `Success` within
/// `events_to_abort` answered events (a permit included: aborting an agent
/// also releases a permit), whatever the state machine reports.
pub proof fn lemma_abort_flag_ends_the_loop(p: SchedulerPhase, events: Seq<SchedulerEvent>)
    requires
        in_loop(p),
        events.len() >= events_to_abort(p),
        answered_with_abort_set(p, events),
    ensures
        run_events(p, events) == SchedulerPhase::Finished(AgentRunStatus::Success),
    decreases events.len(),
{
    let q = next_phase(p, events[0]);
    if q is Finished {
        lemma_finished_is_final(AgentRunStatus::Success, events.drop_first());
    } else {
        lemma_abort_flag_ends_the_loop(q, events.drop_first());
    }
}

/// How many scheduler operations run on the way through a sequence of events.
pub open spec fn advances_in(p: SchedulerPhase, events: Seq<SchedulerEvent>) -> nat
    decreases events.len(),
{
    if events.len() == 0 {
        0
    } else {
        let here: nat = if p is Advancing && events[0] is Advanced { 1 } else { 0 };
        here + advances_in(next_phase(p, events[0]), events.drop_first())
    }
}

/// How many more scheduler operations a phase may still run once the abort
/// flag is set: only the one it is already about to run.
pub open spec fn advances_left_after_abort(p: SchedulerPhase) -> nat {
    if p is Advancing { 1 } else { 0 }
}

/// Once the abort flag is set, the scheduler runs no state operation beyond
/// the one it is already about to run; in particular an idle scheduler, which
/// waits for a permit, runs none: the permit that wakes it leads to a read of
/// the flag, and the loop ends.
pub proof fn lemma_at_most_one_operation_after_abort(p: SchedulerPhase, events: Seq<SchedulerEvent>)
    requires
        !(p is SendingPermits),
        answered_with_abort_set(p, events),
    ensures
        advances_in(p, events) <= advances_left_after_abort(p),
    decreases events.len(),
{
    if events.len() > 0 {
        lemma_at_most_one_operation_after_abort(next_phase(p, events[0]), events.drop_first());
    }
}

/// An aborted scheduler that is idle, waiting for a permit, runs no state
/// operation at all before its loop ends.
pub proof fn lemma_aborted_idle_scheduler_runs_nothing(events: Seq<SchedulerEvent>)
    requires
        answered_with_abort_set(SchedulerPhase::AwaitingPermit, events),
    ensures
        advances_in(SchedulerPhase::AwaitingPermit, events) == 0,
{
    lemma_at_most_one_operation_after_abort(SchedulerPhase::AwaitingPermit, events);
}

/// How many permits the scheduler takes on the way through a sequence of events.
pub open spec fn permits_taken(p: SchedulerPhase, events: Seq<SchedulerEvent>) -> nat
    decreases events.len(),
{
    if events.len() == 0 {
        0
    } else {
        let here: nat = if p is AwaitingPermit && events[0] is PermitAcquired { 1 } else { 0 };
        here + permits_taken(next_phase(p, events[0]), events.drop_first())
    }
}

/// How many rounds the scheduler begins on the way through a sequence of
/// events: a round begins when, holding a fresh permit, it finds the abort
/// flag clear and goes on to advance the state machine.
pub open spec fn rounds_begun(p: SchedulerPhase, events: Seq<SchedulerEvent>) -> nat
    decreases events.len(),
{
    if events.len() == 0 {
        0
    } else {
        let here: nat = if p is CheckingAfterPermit && events[0] == SchedulerEvent::AbortFlag(false) { 1 } else { 0 };
        here + rounds_begun(next_phase(p, events[0]), events.drop_first())
    }
}

/// The round a phase may still begin on a permit it took already.
pub open spec fn round_owed(p: SchedulerPhase) -> nat {
    if p is CheckingAfterPermit { 1 } else { 0 }
}

/// Each round uses a permit of its own: from any phase, the rounds begun plus
/// the round still owed at the end are at most the permits taken plus the
/// round owed at the start.
pub proof fn lemma_one_round_per_permit(p: SchedulerPhase, events: Seq<SchedulerEvent>)
    ensures
        rounds_begun(p, events) + round_owed(run_events(p, events)) <= permits_taken(p, events) + round_owed(p),
    decreases events.len(),
{
    if events.len() > 0 {
        lemma_one_round_per_permit(next_phase(p, events[0]), events.drop_first());
    }
}

/// A fresh scheduler begins at most as many rounds as it takes permits.
pub proof fn lemma_rounds_at_most_permits(events: Seq<SchedulerEvent>)
    ensures
        rounds_begun(SchedulerPhase::SendingPermits, events) <= permits_taken(SchedulerPhase::SendingPermits, events),
{
    lemma_one_round_per_permit(SchedulerPhase::SendingPermits, events);
}

/// A permit taken while the abort flag is clear leads to a round: the
/// scheduler goes on to run a state operation.
pub proof fn lemma_permit_leads_to_a_round()
    ensures
        run_events(
            SchedulerPhase::AwaitingPermit,
            seq![SchedulerEvent::PermitAcquired, SchedulerEvent::AbortFlag(false)],
        ) == SchedulerPhase::Advancing,
        phase_action(SchedulerPhase::Advancing) == SchedulerAction::AdvanceState,
{
    let evs = seq![SchedulerEvent::PermitAcquired, SchedulerEvent::AbortFlag(false)];
    reveal_with_fuel(run_events, 3);
    assert(evs.drop_first() =~= seq![SchedulerEvent::AbortFlag(false)]);
    assert(evs.drop_first().drop_first() =~= Seq::<SchedulerEvent>::empty());
}

/// A state machine that stops in an abort state ends the loop: the scheduler
/// sets the abort flag, and the next read of the flag finds it set.
pub proof fn lemma_abort_state_ends_the_loop()
    ensures
        run_events(
            SchedulerPhase::QueryingAbortState,
            seq![
                SchedulerEvent::AbortState(true),
                SchedulerEvent::AbortFlagStored,
                SchedulerEvent::AbortFlag(true),
            ],
        ) == SchedulerPhase::Finished(AgentRunStatus::Success),
{
    let evs = seq![
        SchedulerEvent::AbortState(true),
        SchedulerEvent::AbortFlagStored,
        SchedulerEvent::AbortFlag(true),
    ];
    reveal_with_fuel(run_events, 4);
    assert(evs.drop_first() =~= seq![SchedulerEvent::AbortFlagStored, SchedulerEvent::AbortFlag(true)]);
    assert(evs.drop_first().drop_first() =~= seq![SchedulerEvent::AbortFlag(true)]);
    assert(evs.drop_first().drop_first().drop_first() =~= Seq::<SchedulerEvent>::empty());
}

/// The scheduler loop of one agent thread.
pub struct AgentScheduler {
    phase: SchedulerPhase,
}

impl AgentScheduler {
    pub closed spec fn phase(&self) -> SchedulerPhase {
        self.phase
    }

    /// A scheduler that has yet to hand over its permit store.
    pub fn new() -> (s: Self)
        ensures
            s.phase() == SchedulerPhase::SendingPermits,
    {
        AgentScheduler { phase: SchedulerPhase::SendingPermits }
    }

    /// The action to perform next.
    pub fn next_action(&self) -> (a: SchedulerAction)
        ensures
            a == phase_action(self.phase()),
    {
        match &self.phase {
            SchedulerPhase::SendingPermits => SchedulerAction::SendPermits,
            SchedulerPhase::CheckingAbort => SchedulerAction::LoadAbortFlag,
            SchedulerPhase::AwaitingPermit => SchedulerAction::AcquirePermit,
            SchedulerPhase::CheckingAfterPermit => SchedulerAction::LoadAbortFlag,
            SchedulerPhase::Advancing => SchedulerAction::AdvanceState,
            SchedulerPhase::CheckingContinue => SchedulerAction::LoadAbortFlag,
            SchedulerPhase::QueryingAbortState => SchedulerAction::QueryAbortState,
            SchedulerPhase::StoringAbort => SchedulerAction::StoreAbortFlag,
            SchedulerPhase::Finished(s) => SchedulerAction::Finish(clone_status(s)),
        }
    }

    /// Whether the loop is over.
    pub fn is_finished(&self) -> (done: bool)
        ensures
            done == (self.phase() is Finished),
    {
        matches!(self.phase, SchedulerPhase::Finished(_))
    }

    /// Takes in the outcome of the last action.
    pub fn step(&mut self, event: SchedulerEvent)
        ensures
            final(self).phase() == next_phase(old(self).phase(), event),
    {
        let next = match (&self.phase, event) {
            (SchedulerPhase::SendingPermits, SchedulerEvent::PermitsSent(r)) => match r {
                Ok(_) => SchedulerPhase::CheckingAbort,
                Err(m) => SchedulerPhase::Finished(AgentRunStatus::FailedToStart(m)),
            },
            (SchedulerPhase::CheckingAbort, SchedulerEvent::AbortFlag(set)) => if set {
                SchedulerPhase::Finished(AgentRunStatus::Success)
            } else {
                SchedulerPhase::AwaitingPermit
            },
            (SchedulerPhase::AwaitingPermit, SchedulerEvent::PermitAcquired) => SchedulerPhase::CheckingAfterPermit,
            (SchedulerPhase::CheckingAfterPermit, SchedulerEvent::AbortFlag(set)) => if set {
                SchedulerPhase::Finished(AgentRunStatus::Success)
            } else {
                SchedulerPhase::Advancing
            },
            (SchedulerPhase::Advancing, SchedulerEvent::Advanced(more)) => if more {
                SchedulerPhase::CheckingContinue
            } else {
                SchedulerPhase::QueryingAbortState
            },
            (SchedulerPhase::CheckingContinue, SchedulerEvent::AbortFlag(set)) => if set {
                SchedulerPhase::QueryingAbortState
            } else {
                SchedulerPhase::Advancing
            },
            (SchedulerPhase::QueryingAbortState, SchedulerEvent::AbortState(abort)) => if abort {
                SchedulerPhase::StoringAbort
            } else {
                SchedulerPhase::CheckingAbort
            },
            (SchedulerPhase::StoringAbort, SchedulerEvent::AbortFlagStored) => SchedulerPhase::CheckingAbort,
            _ => return,
        };
        self.phase = next;
    }
}

} // verus!
