//! Agent programs: agents built from a configuration, the signals that stop
//! them, and the decisions of a program's scheduler thread.
use crate::agent::AgentRunStatus;
use crate::state::State;
use std::cell::RefCell;
use std::rc::Rc;
use std::sync::Arc;
use vstd::prelude::*;

verus! {

/// Data that can be built from a configuration, shared with the agent that
/// clones its state references, together with the state the agent starts in.
pub trait FromConfigClone<Config>: Sized {
    /// The type of the agent's states.
    type Start: State<Self>;

    fn from_config(c: &Config) -> Arc<Self>;

    fn start_state(c: &Config) -> Arc<Self::Start>;
}

/// Data that can be built from a configuration that is moved into the
/// agent's thread, together with the state the agent starts each round in.
pub trait FromConfigMove<Config>: Sized {
    /// The type of the agent's states.
    type Start: State<Self>;

    fn from_config(c: Config) -> Arc<Self>;

    fn start_state() -> Rc<RefCell<Self::Start>>;
}

/// The atomic word that holds a program's signals.
pub type AtomicSizedType = std::sync::atomic::AtomicIsize;

/// A program's signal word: any bit set asks the program to abort.
pub type SignalSized = isize;

/// Operations on a shared signal word.
pub struct AtomicSignalAlgebra {
    _signal: Arc<AtomicSizedType>,
}

impl AtomicSignalAlgebra {
    /// Clears every bit of the signal that `a` does not hold, and returns the
    /// previous signal: what a relaxed `fetch_and` of `a` on the word returns.
    /// Other threads change the signal at any time, so nothing more is
    /// promised of the value returned.
    pub fn acquire_and(signal: &Arc<AtomicSizedType>, a: SignalSized) -> (prev: SignalSized)
        ensures
            call_ensures(
                AtomicSizedType::fetch_and,
                (&**signal, a, std::sync::atomic::Ordering::Relaxed),
                prev,
            ),
    {
        signal.fetch_and(a, std::sync::atomic::Ordering::Relaxed)
    }

    /// Sets every bit of `r` in the signal, and returns the previous signal:
    /// what a relaxed `fetch_or` of `r` on the word returns. Other threads
    /// change the signal at any time, so nothing more is promised of the
    /// value returned.
    pub fn release_or(signal: &Arc<AtomicSizedType>, r: SignalSized) -> (prev: SignalSized)
        ensures
            call_ensures(
                AtomicSizedType::fetch_or,
                (&**signal, r, std::sync::atomic::Ordering::Relaxed),
                prev,
            ),
    {
        signal.fetch_or(r, std::sync::atomic::Ordering::Relaxed)
    }
}

/// Named signals.
pub struct Signal {}

impl Signal {
    /// The abort signal: every bit but the sign bit.
    pub const ABORT: isize = isize::MAX;
}

/// Whether a signal word asks the program to abort: any set bit does.
pub open spec fn is_abort_signal(s: SignalSized) -> bool {
    s != 0
}

/// The signal word after `release_or(signal, r)` on a word that held `prev`.
pub open spec fn signal_after_release(prev: SignalSized, r: SignalSized) -> SignalSized {
    prev | r
}

/// Whether a signal word asks the program to abort.
pub fn signal_is_abort(s: SignalSized) -> (abort: bool)
    ensures
        abort == is_abort_signal(s),
{
    s != 0
}

/// Marking the abort signal is seen: whatever the word held before, once
/// `Signal::ABORT` is or-ed in, it asks the program to abort.
pub proof fn lemma_abort_mark_is_seen(prev: SignalSized)
    ensures
        is_abort_signal(signal_after_release(prev, Signal::ABORT)),
{
    let m = Signal::ABORT;
    assert(m != 0);
    assert((prev | m) != 0) by (bit_vector)
        requires
            m != 0,
    ;
}

/// Where the scheduler thread of a program with moved states stands.
///
/// The thread publishes its data and its permit store to the program. Then,
/// until the signal asks it to abort, it waits for a permit and runs a round:
/// starting from the start state, it advances while a next state comes back
/// and that state is not an abort state. The signal is read at the end of each
/// round and at the loop head. The thread ends by handing its data back.
#[derive(Debug, PartialEq, Eq, Structural, Clone, Copy)]
pub enum MovePhase {
    PublishingData,
    PublishingPermits,
    CheckingSignal,
    AwaitingPermit,
    AdvancingFromStart,
    QueryingAbortState,
    AdvancingCurrent,
    CheckingSignalAfterRound,
    Finished,
}

/// What the thread running a program with moved states must do next.
#[derive(Debug, PartialEq, Eq, Structural, Clone, Copy)]
pub enum MoveAction {
    PublishData,
    PublishPermits,
    LoadSignal,
    AcquirePermit,
    /// Run a scheduler operation on a fresh copy of the start state.
    AdvanceFromStart,
    /// Ask whether the state that came back is an abort state.
    QueryAbortState,
    /// Run a scheduler operation on the state that came back.
    AdvanceCurrent,
    ReturnData,
}

/// What the thread running a program with moved states reports back.
#[derive(Debug, PartialEq, Eq, Structural, Clone, Copy)]
pub enum MoveEvent {
    /// Whether the data was published (its lock could be taken).
    DataPublished(bool),
    /// Whether the permit store was published (its lock could be taken).
    PermitsPublished(bool),
    /// The value of the signal word.
    Signal(SignalSized),
    PermitAcquired,
    /// A scheduler operation ran; whether it returned a next state.
    Advanced(bool),
    /// Whether the state that came back is an abort state.
    AbortState(bool),
}

pub open spec fn move_phase_action(p: MovePhase) -> MoveAction {
    match p {
        MovePhase::PublishingData => MoveAction::PublishData,
        MovePhase::PublishingPermits => MoveAction::PublishPermits,
        MovePhase::CheckingSignal => MoveAction::LoadSignal,
        MovePhase::AwaitingPermit => MoveAction::AcquirePermit,
        MovePhase::AdvancingFromStart => MoveAction::AdvanceFromStart,
        MovePhase::QueryingAbortState => MoveAction::QueryAbortState,
        MovePhase::AdvancingCurrent => MoveAction::AdvanceCurrent,
        MovePhase::CheckingSignalAfterRound => MoveAction::LoadSignal,
        MovePhase::Finished => MoveAction::ReturnData,
    }
}

/// The phase after an event; an event that does not answer the pending
/// action leaves the phase as it is.
pub open spec fn move_next_phase(p: MovePhase, e: MoveEvent) -> MovePhase {
    match (p, e) {
        (MovePhase::PublishingData, MoveEvent::DataPublished(ok)) => if ok {
            MovePhase::PublishingPermits
        } else {
            MovePhase::Finished
        },
        (MovePhase::PublishingPermits, MoveEvent::PermitsPublished(ok)) => if ok {
            MovePhase::CheckingSignal
        } else {
            MovePhase::Finished
        },
        (MovePhase::CheckingSignal, MoveEvent::Signal(s)) => if is_abort_signal(s) {
            MovePhase::Finished
        } else {
            MovePhase::AwaitingPermit
        },
        (MovePhase::AwaitingPermit, MoveEvent::PermitAcquired) => MovePhase::AdvancingFromStart,
        (MovePhase::AdvancingFromStart, MoveEvent::Advanced(more)) => if more {
            MovePhase::QueryingAbortState
        } else {
            MovePhase::CheckingSignalAfterRound
        },
        (MovePhase::AdvancingCurrent, MoveEvent::Advanced(more)) => if more {
            MovePhase::QueryingAbortState
        } else {
            MovePhase::CheckingSignalAfterRound
        },
        (MovePhase::QueryingAbortState, MoveEvent::AbortState(abort)) => if abort {
            MovePhase::CheckingSignalAfterRound
        } else {
            MovePhase::AdvancingCurrent
        },
        (MovePhase::CheckingSignalAfterRound, MoveEvent::Signal(s)) => if is_abort_signal(s) {
            MovePhase::Finished
        } else {
            MovePhase::CheckingSignal
        },
        (p, _) => p,
    }
}

/// The phase after a sequence of events, taken in order.
pub open spec fn move_run(p: MovePhase, events: Seq<MoveEvent>) -> MovePhase
    decreases events.len(),
{
    if events.len() == 0 {
        p
    } else {
        move_run(move_next_phase(p, events[0]), events.drop_first())
    }
}

/// Whether a phase is inside a round: after the round's permit, before its
/// closing read of the signal.
pub open spec fn in_round(p: MovePhase) -> bool {
    p is AdvancingFromStart || p is QueryingAbortState || p is AdvancingCurrent
}

/// A finished thread stays finished.
pub proof fn lemma_move_finished_is_final(events: Seq<MoveEvent>)
    ensures
        move_run(MovePhase::Finished, events) == MovePhase::Finished,
    decreases events.len(),
{
    if events.len() > 0 {
        lemma_move_finished_is_final(events.drop_first());
    }
}

/// After `abort` or-ed `Signal::ABORT` into the signal word, the next read of
/// the signal, at the end of a round or at the loop head, ends the loop.
pub proof fn lemma_marked_signal_ends_the_loop(p: MovePhase, prev: SignalSized)
    requires
        p is CheckingSignal || p is CheckingSignalAfterRound,
    ensures
        move_next_phase(p, MoveEvent::Signal(signal_after_release(prev, Signal::ABORT))) == MovePhase::Finished,
{
    lemma_abort_mark_is_seen(prev);
}

/// Within a round the signal is not read: whatever is reported, the thread
/// leaves a round only to the round's closing read of the signal (or stays in it).
pub proof fn lemma_rounds_end_at_a_signal_read(p: MovePhase, e: MoveEvent)
    requires
        in_round(p),
    ensures
        in_round(move_next_phase(p, e)) || move_next_phase(p, e) is CheckingSignalAfterRound,
{
}

/// Every round starts from the start state: a permit always leads to an
/// operation on a fresh copy of it, and only an operation that returned a
/// state that is not an abort state leads to one on the current state.
pub proof fn lemma_rounds_start_from_the_start_state(p: MovePhase, e: MoveEvent)
    ensures
        move_next_phase(p, e) is AdvancingFromStart ==> (p is AwaitingPermit || p is AdvancingFromStart),
        move_next_phase(p, e) is AdvancingCurrent ==> (
            (p is QueryingAbortState && e == MoveEvent::AbortState(false)) || p is AdvancingCurrent),
{
}

/// Whether a phase runs a state operation.
pub open spec fn runs_operation(p: MovePhase) -> bool {
    p is AdvancingFromStart || p is AdvancingCurrent
}

/// What follows a state operation depends on its outcome alone: a state that
/// came back is always checked for being an abort state before anything else,
/// and an operation with no next state ends the round at a read of the signal.
pub proof fn lemma_operation_outcome_decides_what_follows(p: MovePhase, more: bool)
    requires
        runs_operation(p),
    ensures
        move_phase_action(move_next_phase(p, MoveEvent::Advanced(more))) == (if more {
            MoveAction::QueryAbortState
        } else {
            MoveAction::LoadSignal
        }),
        !more ==> move_next_phase(p, MoveEvent::Advanced(more)) == MovePhase::CheckingSignalAfterRound,
{
}

/// How many permits the loop takes on the way through a sequence of events.
pub open spec fn move_permits_taken(p: MovePhase, events: Seq<MoveEvent>) -> nat
    decreases events.len(),
{
    if events.len() == 0 {
        0
    } else {
        let here: nat = if p is AwaitingPermit && events[0] is PermitAcquired { 1 } else { 0 };
        here + move_permits_taken(move_next_phase(p, events[0]), events.drop_first())
    }
}

/// How many operations on a fresh copy of the start state run on the way
/// through a sequence of events.
pub open spec fn start_operations(p: MovePhase, events: Seq<MoveEvent>) -> nat
    decreases events.len(),
{
    if events.len() == 0 {
        0
    } else {
        let here: nat = if p is AdvancingFromStart && events[0] is Advanced { 1 } else { 0 };
        here + start_operations(move_next_phase(p, events[0]), events.drop_first())
    }
}

/// The operation on the start state that a phase still owes the permit it took.
pub open spec fn start_operation_owed(p: MovePhase) -> nat {
    if p is AdvancingFromStart { 1 } else { 0 }
}

/// Each permit runs the start state once: the operations on the start state,
/// plus the one still owed at the end, are at most the permits taken plus the
/// one owed at the start. So without a new permit the start state never runs
/// again, whatever its operations return.
pub proof fn lemma_one_start_operation_per_permit(p: MovePhase, events: Seq<MoveEvent>)
    ensures
        start_operations(p, events) + start_operation_owed(move_run(p, events))
            <= move_permits_taken(p, events) + start_operation_owed(p),
    decreases events.len(),
{
    if events.len() > 0 {
        lemma_one_start_operation_per_permit(move_next_phase(p, events[0]), events.drop_first());
    }
}

/// A fresh loop runs the start state at most once per permit it takes.
pub proof fn lemma_start_operations_at_most_permits(events: Seq<MoveEvent>)
    ensures
        start_operations(MovePhase::PublishingData, events) <= move_permits_taken(MovePhase::PublishingData, events),
{
    lemma_one_start_operation_per_permit(MovePhase::PublishingData, events);
}

/// How many operations on a state that came back within a round run on the
/// way through a sequence of events.
pub open spec fn current_operations(p: MovePhase, events: Seq<MoveEvent>) -> nat
    decreases events.len(),
{
    if events.len() == 0 {
        0
    } else {
        let here: nat = if p is AdvancingCurrent && events[0] is Advanced { 1 } else { 0 };
        here + current_operations(move_next_phase(p, events[0]), events.drop_first())
    }
}

/// How many states that came back were found not to be abort states on the
/// way through a sequence of events.
pub open spec fn states_cleared(p: MovePhase, events: Seq<MoveEvent>) -> nat
    decreases events.len(),
{
    if events.len() == 0 {
        0
    } else {
        let here: nat = if p is QueryingAbortState && events[0] == MoveEvent::AbortState(false) { 1 } else { 0 };
        here + states_cleared(move_next_phase(p, events[0]), events.drop_first())
    }
}

/// The operation that a phase still owes a state it cleared.
pub open spec fn current_operation_owed(p: MovePhase) -> nat {
    if p is AdvancingCurrent { 1 } else { 0 }
}

/// Every state that came back is checked before it runs: each operation on
/// such a state follows its own finding that it is not an abort state, so an
/// abort state that comes back never runs.
pub proof fn lemma_each_state_checked_before_it_runs(p: MovePhase, events: Seq<MoveEvent>)
    ensures
        current_operations(p, events) + current_operation_owed(move_run(p, events))
            <= states_cleared(p, events) + current_operation_owed(p),
    decreases events.len(),
{
    if events.len() > 0 {
        lemma_each_state_checked_before_it_runs(move_next_phase(p, events[0]), events.drop_first());
    }
}

/// In a fresh loop, operations on states that came back are at most the
/// states found not to be abort states.
pub proof fn lemma_current_operations_at_most_cleared(events: Seq<MoveEvent>)
    ensures
        current_operations(MovePhase::PublishingData, events) <= states_cleared(MovePhase::PublishingData, events),
{
    lemma_each_state_checked_before_it_runs(MovePhase::PublishingData, events);
}

/// The loop of a program's scheduler thread with moved states.
pub struct MoveSchedulerLoop {
    phase: MovePhase,
}

impl MoveSchedulerLoop {
    pub closed spec fn phase(&self) -> MovePhase {
        self.phase
    }

    /// A loop that has yet to publish its data.
    pub fn new() -> (l: Self)
        ensures
            l.phase() == MovePhase::PublishingData,
    {
        MoveSchedulerLoop { phase: MovePhase::PublishingData }
    }

    /// The action to perform next.
    pub fn next_action(&self) -> (a: MoveAction)
        ensures
            a == move_phase_action(self.phase()),
    {
        match self.phase {
            MovePhase::PublishingData => MoveAction::PublishData,
            MovePhase::PublishingPermits => MoveAction::PublishPermits,
            MovePhase::CheckingSignal => MoveAction::LoadSignal,
            MovePhase::AwaitingPermit => MoveAction::AcquirePermit,
            MovePhase::AdvancingFromStart => MoveAction::AdvanceFromStart,
            MovePhase::QueryingAbortState => MoveAction::QueryAbortState,
            MovePhase::AdvancingCurrent => MoveAction::AdvanceCurrent,
            MovePhase::CheckingSignalAfterRound => MoveAction::LoadSignal,
            MovePhase::Finished => MoveAction::ReturnData,
        }
    }

    /// Takes in the outcome of the last action.
    pub fn step(&mut self, event: MoveEvent)
        ensures
            final(self).phase() == move_next_phase(old(self).phase(), event),
    {
        self.phase = match (self.phase, event) {
            (MovePhase::PublishingData, MoveEvent::DataPublished(ok)) => if ok {
                MovePhase::PublishingPermits
            } else {
                MovePhase::Finished
            },
            (MovePhase::PublishingPermits, MoveEvent::PermitsPublished(ok)) => if ok {
                MovePhase::CheckingSignal
            } else {
                MovePhase::Finished
            },
            (MovePhase::CheckingSignal, MoveEvent::Signal(s)) => if signal_is_abort(s) {
                MovePhase::Finished
            } else {
                MovePhase::AwaitingPermit
            },
            (MovePhase::AwaitingPermit, MoveEvent::PermitAcquired) => MovePhase::AdvancingFromStart,
            (MovePhase::AdvancingFromStart, MoveEvent::Advanced(more)) => if more {
                MovePhase::QueryingAbortState
            } else {
                MovePhase::CheckingSignalAfterRound
            },
            (MovePhase::AdvancingCurrent, MoveEvent::Advanced(more)) => if more {
                MovePhase::QueryingAbortState
            } else {
                MovePhase::CheckingSignalAfterRound
            },
            (MovePhase::QueryingAbortState, MoveEvent::AbortState(abort)) => if abort {
                MovePhase::CheckingSignalAfterRound
            } else {
                MovePhase::AdvancingCurrent
            },
            (MovePhase::CheckingSignalAfterRound, MoveEvent::Signal(s)) => if signal_is_abort(s) {
                MovePhase::Finished
            } else {
                MovePhase::CheckingSignal
            },
            (p, _) => p,
        };
    }
}

/// The errors of an agent program. `AgentRunning` hands the program back.
#[derive(Debug)]
pub enum AgentProgramError<T> {
    /// The agent gave no reference to itself.
    NoRef,
    /// The agent's thread ended with this status.
    AgentRunError(AgentRunStatus),
    /// The agent is still running or still referenced elsewhere.
    AgentRunning(T),
    /// Finishing the agent failed, for this reason.
    AgentErrorState(String),
    /// The agent's thread published no permit store.
    NoPermits,
    /// The agent's thread published no data.
    NoData,
}

/// What starting a program yields from the reference its agent gave after it
/// started running: the reference, or `NoRef` when the agent gave none.
pub fn start_outcome<R, P>(agent_ref: Option<R>) -> (r: Result<R, AgentProgramError<P>>)
    ensures
        r == (match agent_ref {
            Some(a) => Ok(a),
            None => Err(AgentProgramError::<P>::NoRef),
        }),
{
    match agent_ref {
        Some(a) => Ok(a),
        None => Err(AgentProgramError::NoRef),
    }
}

/// Whether a program may complete: only when it holds the one strong
/// reference to its agent, so no one else can still use the agent.
pub fn may_complete(strong_count: usize) -> (ok: bool)
    ensures
        ok == (strong_count <= 1),
{
    strong_count <= 1
}

/// What completing a finished program yields: its data when the agent's
/// thread ended in success, else the error that says how it ended.
pub fn complete_outcome<D, P>(finished: Result<AgentRunStatus, String>, data: D) -> (r: Result<
    D,
    AgentProgramError<P>,
>)
    ensures
        r == (match finished {
            Ok(AgentRunStatus::Success) => Ok(data),
            Ok(st) => Err(AgentProgramError::<P>::AgentRunError(st)),
            Err(e) => Err(AgentProgramError::<P>::AgentErrorState(e)),
        }),
{
    match finished {
        Ok(status) => match status {
            AgentRunStatus::Success => Ok(data),
            _ => Err(AgentProgramError::AgentRunError(status)),
        },
        Err(e) => Err(AgentProgramError::AgentErrorState(e)),
    }
}

} // verus!
