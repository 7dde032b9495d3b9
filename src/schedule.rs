use vstd::prelude::*;

verus! {

/// Where the watchdog stands within a cycle.
#[derive(Debug, Clone, Copy, PartialEq, Eq, Structural)]
pub enum Phase {
    /// Waiting for the routing table to be inspected.
    Inspecting,
    /// Waiting for the service restart to finish.
    Restarting,
    /// Waiting for the pause between cycles to end.
    Sleeping,
}

/// How a restart attempt ended; it is reported, never acted upon.
#[derive(Debug, Clone, Copy, PartialEq, Eq, Structural)]
pub enum RestartOutcome {
    /// The service manager ran and exited with success.
    Succeeded,
    /// The service manager ran and exited with a failure status.
    Failed,
    /// The service manager could not be started.
    NotLaunched,
}

/// What the outside world reports back after performing an action.
#[derive(Debug, Clone, Copy, PartialEq, Eq, Structural)]
pub enum Event {
    /// The inspection finished; `true` when the routes are present.
    Inspected(bool),
    /// The restart attempt finished.
    Restarted(RestartOutcome),
    /// The pause is over.
    Woke,
}

/// What the outside world is asked to do next.
#[derive(Debug, Clone, Copy, PartialEq, Eq, Structural)]
pub enum Action {
    /// Inspect the routing table.
    Inspect,
    /// Restart the service.
    Restart,
    /// Pause for the configured interval.
    Sleep,
}

/// The action owed in a phase.
pub open spec fn pending_of(phase: Phase) -> Action {
    match phase {
        Phase::Inspecting => Action::Inspect,
        Phase::Restarting => Action::Restart,
        Phase::Sleeping => Action::Sleep,
    }
}

/// The event answers the action owed in the phase.
pub open spec fn answers(phase: Phase, event: Event) -> bool {
    match (phase, event) {
        (Phase::Inspecting, Event::Inspected(_)) => true,
        (Phase::Restarting, Event::Restarted(_)) => true,
        (Phase::Sleeping, Event::Woke) => true,
        _ => false,
    }
}

/// The phase that follows an answered action: a restart only when the
/// routes were found missing, and a pause after every inspection or restart.
pub open spec fn next_phase(phase: Phase, event: Event) -> Phase
    recommends
        answers(phase, event),
{
    match event {
        Event::Inspected(present) => if present {
            Phase::Sleeping
        } else {
            Phase::Restarting
        },
        Event::Restarted(_) => Phase::Sleeping,
        Event::Woke => Phase::Inspecting,
    }
}

/// The watchdog's control state, carried from one event to the next.
pub struct Scheduler {
    pub phase: Phase,
}

impl Scheduler {
    /// A watchdog about to make its first inspection.
    pub fn new() -> (r: Scheduler)
        ensures
            r.phase == Phase::Inspecting,
    {
        Scheduler { phase: Phase::Inspecting }
    }

    /// The action the watchdog waits on.
    pub fn pending(&self) -> (r: Action)
        ensures
            r == pending_of(self.phase),
    {
        match self.phase {
            Phase::Inspecting => Action::Inspect,
            Phase::Restarting => Action::Restart,
            Phase::Sleeping => Action::Sleep,
        }
    }

    /// Whether `event` answers the action the watchdog waits on.
    pub fn accepts(&self, event: Event) -> (r: bool)
        ensures
            r == answers(self.phase, event),
    {
        match (self.phase, event) {
            (Phase::Inspecting, Event::Inspected(_)) => true,
            (Phase::Restarting, Event::Restarted(_)) => true,
            (Phase::Sleeping, Event::Woke) => true,
            _ => false,
        }
    }

    /// Takes in the answer to the pending action and returns the next one.
    pub fn advance(&mut self, event: Event) -> (r: Action)
        requires
            answers(old(self).phase, event),
        ensures
            final(self).phase == next_phase(old(self).phase, event),
            r == pending_of(final(self).phase),
    {
        self.phase = match event {
            Event::Inspected(present) => if present {
                Phase::Sleeping
            } else {
                Phase::Restarting
            },
            Event::Restarted(_) => Phase::Sleeping,
            Event::Woke => Phase::Inspecting,
        };
        self.pending()
    }
}

/// Each event answers the action owed when it comes.
pub open spec fn answers_all(phase: Phase, events: Seq<Event>) -> bool
    decreases events.len(),
{
    events.len() == 0 || (answers(phase, events[0]) && answers_all(
        next_phase(phase, events[0]),
        events.drop_first(),
    ))
}

/// The actions asked for, in order, when `events` come in from `phase` on:
/// the one owed at the start, then one after each event.
pub open spec fn actions_of(phase: Phase, events: Seq<Event>) -> Seq<Action>
    decreases events.len(),
{
    if events.len() == 0 {
        seq![pending_of(phase)]
    } else {
        seq![pending_of(phase)] + actions_of(next_phase(phase, events[0]), events.drop_first())
    }
}

/// A restart is asked for exactly when an inspection has just reported the
/// routes missing.
pub proof fn lemma_restart_iff_routes_missing(phase: Phase, event: Event)
    requires
        answers(phase, event),
    ensures
        (pending_of(next_phase(phase, event)) == Action::Restart) <==> (event == Event::Inspected(
            false,
        )),
{
}

/// In every run, each action after the first is the answer's consequence: a
/// restart only right after an inspection that found the routes missing, a
/// pause right after every restart, whatever its outcome, and a new
/// inspection only right after a pause. So a cycle holds at most one restart
/// and always ends with a pause.
pub proof fn lemma_run_shape(phase: Phase, events: Seq<Event>)
    requires
        answers_all(phase, events),
    ensures
        actions_of(phase, events).len() == events.len() + 1,
        actions_of(phase, events)[0] == pending_of(phase),
        forall|k: int|
            #![trigger events[k]]
            0 <= k < events.len() ==> {
                let acts = actions_of(phase, events);
                &&& (acts[k + 1] == Action::Restart) == (acts[k] == Action::Inspect
                    && events[k] == Event::Inspected(false))
                &&& acts[k] == Action::Restart ==> acts[k + 1] == Action::Sleep
                &&& acts[k + 1] == Action::Inspect ==> acts[k] == Action::Sleep
            },
    decreases events.len(),
{
    if events.len() > 0 {
        let next = next_phase(phase, events[0]);
        let rest = events.drop_first();
        lemma_run_shape(next, rest);
        let acts = actions_of(phase, events);
        assert(acts == seq![pending_of(phase)] + actions_of(next, rest));
        assert forall|k: int| 0 <= k < events.len() implies {
            &&& (acts[k + 1] == Action::Restart) == (acts[k] == Action::Inspect
                && events[k] == Event::Inspected(false))
            &&& acts[k] == Action::Restart ==> acts[k + 1] == Action::Sleep
            &&& acts[k + 1] == Action::Inspect ==> acts[k] == Action::Sleep
        } by {
            if k > 0 {
                assert(events[k] == rest[k - 1]);
                assert(acts[k] == actions_of(next, rest)[k - 1]);
                assert(acts[k + 1] == actions_of(next, rest)[k]);
            }
        }
    }
}

} // verus!
