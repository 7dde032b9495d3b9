use bgp_watchdog::schedule::{Action, Event, Phase, RestartOutcome, Scheduler};

#[test]
fn starts_by_inspecting() {
    let s = Scheduler::new();
    assert_eq!(s.phase, Phase::Inspecting);
    assert_eq!(s.pending(), Action::Inspect);
}

#[test]
fn routes_present_skips_restart() {
    let mut s = Scheduler::new();
    assert_eq!(s.advance(Event::Inspected(true)), Action::Sleep);
    assert_eq!(s.advance(Event::Woke), Action::Inspect);
}

#[test]
fn routes_missing_restarts_once() {
    let mut s = Scheduler::new();
    let mut actions = vec![s.pending()];
    actions.push(s.advance(Event::Inspected(false)));
    actions.push(s.advance(Event::Restarted(RestartOutcome::Succeeded)));
    actions.push(s.advance(Event::Woke));
    assert_eq!(actions, vec![Action::Inspect, Action::Restart, Action::Sleep, Action::Inspect]);
    let restarts = actions.iter().filter(|a| **a == Action::Restart).count();
    assert_eq!(restarts, 1);
}

#[test]
fn failed_restart_still_sleeps() {
    let mut s = Scheduler::new();
    assert_eq!(s.advance(Event::Inspected(false)), Action::Restart);
    assert_eq!(s.advance(Event::Restarted(RestartOutcome::Failed)), Action::Sleep);
    assert_eq!(s.phase, Phase::Sleeping);
}

#[test]
fn unlaunched_restart_still_sleeps() {
    let mut s = Scheduler::new();
    assert_eq!(s.advance(Event::Inspected(false)), Action::Restart);
    assert_eq!(s.advance(Event::Restarted(RestartOutcome::NotLaunched)), Action::Sleep);
}

#[test]
fn accepts_only_the_awaited_answer() {
    let mut s = Scheduler::new();
    assert!(s.accepts(Event::Inspected(true)));
    assert!(!s.accepts(Event::Woke));
    assert!(!s.accepts(Event::Restarted(RestartOutcome::Succeeded)));
    s.advance(Event::Inspected(false));
    assert!(s.accepts(Event::Restarted(RestartOutcome::Failed)));
    assert!(!s.accepts(Event::Inspected(false)));
    s.advance(Event::Restarted(RestartOutcome::Failed));
    assert!(s.accepts(Event::Woke));
    assert!(!s.accepts(Event::Inspected(true)));
}

#[test]
fn many_cycles_alternate() {
    let mut s = Scheduler::new();
    let mut restarts = 0;
    for present in [true, false, false, true] {
        assert_eq!(s.pending(), Action::Inspect);
        if s.advance(Event::Inspected(present)) == Action::Restart {
            restarts += 1;
            assert_eq!(s.advance(Event::Restarted(RestartOutcome::Succeeded)), Action::Sleep);
        }
        assert_eq!(s.pending(), Action::Sleep);
        s.advance(Event::Woke);
    }
    assert_eq!(restarts, 2);
}
