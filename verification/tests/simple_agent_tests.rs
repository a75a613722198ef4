use modular_agents::simple_agent::{RunState, SimpleAction, SimpleAgentLoop, SimpleEvent};

/// The three schedulers of the counting agent, as the value they switch between.
#[derive(Clone, Copy, PartialEq, Debug)]
enum Sched {
    Init,
    Second,
    Finish,
}

struct Counting {
    val: usize,
    func: Sched,
}

fn run_scheduler(this: &mut Counting) -> RunState {
    match this.func {
        Sched::Finish => RunState::Finish,
        Sched::Second => {
            if this.val < 20 {
                this.val += 1;
                RunState::GoAgain
            } else {
                this.func = Sched::Init;
                RunState::ReqNewPermit
            }
        }
        Sched::Init => {
            if this.val < 10 {
                this.val += 1;
            } else if this.val == 10 {
                this.func = Sched::Second;
            } else if this.val < 30 {
                this.val += 1;
            } else {
                this.func = Sched::Finish;
            }
            RunState::GoAgain
        }
    }
}

/// Drives the loop until it returns the data or waits for a permit that is not there.
fn drive(l: &mut SimpleAgentLoop, data: &mut Counting, permits: &mut usize, runs: &mut usize) -> bool {
    loop {
        match l.next_action() {
            SimpleAction::AcquirePermit => {
                if *permits == 0 {
                    return false;
                }
                *permits -= 1;
                l.step(SimpleEvent::PermitAcquired);
            }
            SimpleAction::RunScheduler => {
                *runs += 1;
                let r = run_scheduler(data);
                l.step(SimpleEvent::Scheduled(r));
            }
            SimpleAction::ReturnData => return true,
        }
    }
}

#[test]
fn counting_agent_stops_at_twenty_until_a_second_permit_then_finishes_at_thirty() {
    let mut data = Counting { val: 0, func: Sched::Init };
    let mut l = SimpleAgentLoop::new();
    let mut permits = 0;
    let mut runs = 0;
    // Without a permit the scheduler never runs.
    assert!(!drive(&mut l, &mut data, &mut permits, &mut runs));
    assert_eq!(runs, 0);
    permits += 1;
    assert!(!drive(&mut l, &mut data, &mut permits, &mut runs));
    assert_eq!(data.val, 20);
    permits += 1;
    assert!(drive(&mut l, &mut data, &mut permits, &mut runs));
    assert_eq!(data.val, 30);
    assert_eq!(permits, 0);
    assert_eq!(l.next_action(), SimpleAction::ReturnData);
}

#[test]
fn go_again_runs_without_a_new_permit_and_finish_is_final() {
    let mut l = SimpleAgentLoop::new();
    assert_eq!(l.next_action(), SimpleAction::AcquirePermit);
    l.step(SimpleEvent::Scheduled(RunState::GoAgain));
    assert_eq!(l.next_action(), SimpleAction::AcquirePermit);
    l.step(SimpleEvent::PermitAcquired);
    assert_eq!(l.next_action(), SimpleAction::RunScheduler);
    l.step(SimpleEvent::Scheduled(RunState::GoAgain));
    assert_eq!(l.next_action(), SimpleAction::RunScheduler);
    l.step(SimpleEvent::Scheduled(RunState::ReqNewPermit));
    assert_eq!(l.next_action(), SimpleAction::AcquirePermit);
    l.step(SimpleEvent::PermitAcquired);
    l.step(SimpleEvent::Scheduled(RunState::Finish));
    assert_eq!(l.next_action(), SimpleAction::ReturnData);
    l.step(SimpleEvent::PermitAcquired);
    l.step(SimpleEvent::Scheduled(RunState::GoAgain));
    assert_eq!(l.next_action(), SimpleAction::ReturnData);
}
