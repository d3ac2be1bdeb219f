//! The autoconnect orchestrator: a state machine that sequences driver
//! startup, session opening, navigation, best-effort form submission,
//! connectivity polling, and cleanup into one operation with a single
//! outcome.
//!
//! The machine owns every decision; it performs no I/O. The caller runs the
//! loop: it executes each requested [`Action`] (spawn the driver, open the
//! session, probe connectivity, ...) and feeds the result back as an
//! [`Event`]. Once the driver process has been started, every path to a final
//! outcome requests exactly one [`Action::StopDriver`] first; a failure
//! before the driver is running finishes with no cleanup request.

use vstd::prelude::*;

verus! {

/// Why an autoconnect run failed. Every reason is terminal for the run;
/// nothing but the connectivity probe is retried.
#[derive(Clone, Copy, PartialEq, Eq, Structural, Debug)]
pub enum FailureReason {
    /// The driver executable could not be spawned.
    ExecutableNotFound,
    /// Discovery mode found no port announcement in the driver's output.
    PortDiscoveryFailed,
    /// The automation session could not be created.
    SessionCreationFailed,
    /// Navigation to the portal URL failed.
    NavigationFailed,
    /// A submit element was found but clicking it failed.
    ElementClickFailed,
    /// No probe reported connectivity within the time budget.
    ConnectivityTimeout,
    /// The driver process could not be stopped cleanly.
    ProcessTerminationFailed,
}

/// The final result of one autoconnect run.
#[derive(Clone, Copy, PartialEq, Eq, Structural, Debug)]
pub enum Outcome {
    Succeeded,
    Failed(FailureReason),
}

/// The fixed shape of one run: how many submit selectors the priority list
/// holds and how many connectivity probes the time budget allows.
#[derive(Clone, Copy, PartialEq, Eq, Structural, Debug)]
pub struct Plan {
    pub selector_count: usize,
    pub max_probes: u64,
}

/// Where one run stands. `Submitting`/`Clicking` carry the index of the
/// selector currently under trial; `Polling` carries the index of the probe
/// whose result is awaited.
#[derive(Clone, Copy, PartialEq, Eq, Structural, Debug)]
pub enum State {
    Idle,
    DriverStarting,
    SessionOpening,
    Navigating,
    Submitting { selector: usize },
    Clicking { selector: usize },
    Polling { probe: u64 },
    Cleanup { pending: Outcome },
    Done { outcome: Outcome },
}

/// What the caller reports back to the machine: the result of the action it
/// was last asked to perform.
#[derive(Clone, Copy, PartialEq, Eq, Structural, Debug)]
pub enum Event {
    /// Begin the run.
    Start,
    /// The driver process is running and listens on this port (fixed or
    /// discovered from its startup output).
    DriverSpawned { port: u16 },
    /// The driver executable could not be spawned.
    DriverSpawnFailed,
    /// Discovery mode: the driver's output ended without a port announcement.
    PortDiscoveryFailed,
    SessionOpened,
    SessionOpenFailed,
    NavigationSucceeded,
    NavigationFailed,
    /// The selector under trial matched an element.
    SelectorMatched,
    /// The selector under trial matched no element.
    SelectorNotMatched,
    ClickSucceeded,
    ClickFailed,
    /// One connectivity probe finished; `connected` is its classification.
    ProbeCompleted { connected: bool },
    DriverStopped,
    DriverStopFailed,
}

/// What the machine asks the caller to do next.
#[derive(Clone, Copy, PartialEq, Eq, Structural, Debug)]
pub enum Action {
    /// Spawn the driver executable and determine its port.
    SpawnDriver,
    /// Open an automation session against the driver on this port.
    OpenSession { port: u16 },
    /// Navigate the session to the portal URL.
    Navigate,
    /// Look for an element matching this selector of the priority list.
    FindElement { selector: usize },
    /// Click the element found for this selector.
    ClickElement { selector: usize },
    /// Issue the first connectivity probe.
    Probe,
    /// Sleep one poll interval, then issue the next connectivity probe.
    SleepAndProbe,
    /// Terminate the driver process and wait for its exit.
    StopDriver,
    /// The run is over with this outcome; nothing is left to do.
    Finish { outcome: Outcome },
    /// The event did not belong to the current state; nothing changes.
    Ignore,
}

/// Entry into the submission phase: try the first selector, or go straight to
/// polling when the priority list is empty.
pub open spec fn enter_submit(plan: Plan) -> (State, Action) {
    if plan.selector_count == 0 {
        enter_poll(plan)
    } else {
        (State::Submitting { selector: 0 }, Action::FindElement { selector: 0 })
    }
}

/// Entry into the polling phase: issue the first probe, or time out at once
/// when the budget allows none.
pub open spec fn enter_poll(plan: Plan) -> (State, Action) {
    if plan.max_probes == 0 {
        (
            State::Cleanup { pending: Outcome::Failed(FailureReason::ConnectivityTimeout) },
            Action::StopDriver,
        )
    } else {
        (State::Polling { probe: 0 }, Action::Probe)
    }
}

/// The transition relation of the orchestrator: from the current state and
/// the caller's event to the next state and the next requested action. An
/// event that does not belong to the current state changes nothing.
pub open spec fn next(plan: Plan, s: State, e: Event) -> (State, Action) {
    match (s, e) {
        (State::Idle, Event::Start) => (State::DriverStarting, Action::SpawnDriver),
        (State::DriverStarting, Event::DriverSpawned { port }) => (
            State::SessionOpening,
            Action::OpenSession { port },
        ),
        (State::DriverStarting, Event::DriverSpawnFailed) => finish(
            Outcome::Failed(FailureReason::ExecutableNotFound),
        ),
        (State::DriverStarting, Event::PortDiscoveryFailed) => finish(
            Outcome::Failed(FailureReason::PortDiscoveryFailed),
        ),
        (State::SessionOpening, Event::SessionOpened) => (State::Navigating, Action::Navigate),
        (State::SessionOpening, Event::SessionOpenFailed) => cleanup(
            Outcome::Failed(FailureReason::SessionCreationFailed),
        ),
        (State::Navigating, Event::NavigationSucceeded) => enter_submit(plan),
        (State::Navigating, Event::NavigationFailed) => cleanup(
            Outcome::Failed(FailureReason::NavigationFailed),
        ),
        (State::Submitting { selector }, Event::SelectorMatched) => (
            State::Clicking { selector },
            Action::ClickElement { selector },
        ),
        (State::Submitting { selector }, Event::SelectorNotMatched) => if selector + 1
            < plan.selector_count {
            (
                State::Submitting { selector: (selector + 1) as usize },
                Action::FindElement { selector: (selector + 1) as usize },
            )
        } else {
            enter_poll(plan)
        },
        (State::Clicking { .. }, Event::ClickSucceeded) => enter_poll(plan),
        (State::Clicking { .. }, Event::ClickFailed) => cleanup(
            Outcome::Failed(FailureReason::ElementClickFailed),
        ),
        (State::Polling { probe }, Event::ProbeCompleted { connected }) => if connected {
            cleanup(Outcome::Succeeded)
        } else if probe + 1 < plan.max_probes {
            (State::Polling { probe: (probe + 1) as u64 }, Action::SleepAndProbe)
        } else {
            cleanup(Outcome::Failed(FailureReason::ConnectivityTimeout))
        },
        (State::Cleanup { pending }, Event::DriverStopped) => finish(pending),
        (State::Cleanup { .. }, Event::DriverStopFailed) => finish(
            Outcome::Failed(FailureReason::ProcessTerminationFailed),
        ),
        _ => (s, Action::Ignore),
    }
}

/// Transition into cleanup: the driver is running, so a stop is requested
/// before the pending outcome is surfaced.
pub open spec fn cleanup(pending: Outcome) -> (State, Action) {
    (State::Cleanup { pending }, Action::StopDriver)
}

/// Transition into the final state, surfacing the outcome.
pub open spec fn finish(outcome: Outcome) -> (State, Action) {
    (State::Done { outcome }, Action::Finish { outcome })
}

/// Indices carried by a state stay inside the plan's bounds.
pub open spec fn state_wf(plan: Plan, s: State) -> bool {
    match s {
        State::Submitting { selector } => selector < plan.selector_count,
        State::Clicking { selector } => selector < plan.selector_count,
        State::Polling { probe } => probe < plan.max_probes,
        _ => true,
    }
}

/// One run's machine: the fixed plan and the current state.
#[derive(Clone, Copy, PartialEq, Eq, Structural, Debug)]
pub struct Orchestrator {
    pub plan: Plan,
    pub state: State,
}

impl Orchestrator {
    pub open spec fn wf(self) -> bool {
        state_wf(self.plan, self.state)
    }

    /// A fresh machine, idle until the caller sends [`Event::Start`].
    pub fn new(plan: Plan) -> (r: Orchestrator)
        ensures
            r.plan == plan,
            r.state == State::Idle,
            r.wf(),
    {
        Orchestrator { plan, state: State::Idle }
    }

    /// Takes one step: consumes the caller's event, moves to the next state,
    /// and returns the next action to perform — exactly as the transition
    /// relation [`next`] prescribes.
    pub fn handle(&mut self, e: Event) -> (a: Action)
        requires
            old(self).wf(),
        ensures
            final(self).plan == old(self).plan,
            (final(self).state, a) == next(old(self).plan, old(self).state, e),
            final(self).wf(),
    {
        let plan = self.plan;
        let (s2, a) = match (self.state, e) {
            (State::Idle, Event::Start) => (State::DriverStarting, Action::SpawnDriver),
            (State::DriverStarting, Event::DriverSpawned { port }) => (
                State::SessionOpening,
                Action::OpenSession { port },
            ),
            (State::DriverStarting, Event::DriverSpawnFailed) => finish_exec(
                Outcome::Failed(FailureReason::ExecutableNotFound),
            ),
            (State::DriverStarting, Event::PortDiscoveryFailed) => finish_exec(
                Outcome::Failed(FailureReason::PortDiscoveryFailed),
            ),
            (State::SessionOpening, Event::SessionOpened) => (State::Navigating, Action::Navigate),
            (State::SessionOpening, Event::SessionOpenFailed) => cleanup_exec(
                Outcome::Failed(FailureReason::SessionCreationFailed),
            ),
            (State::Navigating, Event::NavigationSucceeded) => enter_submit_exec(&plan),
            (State::Navigating, Event::NavigationFailed) => cleanup_exec(
                Outcome::Failed(FailureReason::NavigationFailed),
            ),
            (State::Submitting { selector }, Event::SelectorMatched) => (
                State::Clicking { selector },
                Action::ClickElement { selector },
            ),
            (State::Submitting { selector }, Event::SelectorNotMatched) => if selector + 1
                < plan.selector_count {
                (
                    State::Submitting { selector: selector + 1 },
                    Action::FindElement { selector: selector + 1 },
                )
            } else {
                enter_poll_exec(&plan)
            },
            (State::Clicking { .. }, Event::ClickSucceeded) => enter_poll_exec(&plan),
            (State::Clicking { .. }, Event::ClickFailed) => cleanup_exec(
                Outcome::Failed(FailureReason::ElementClickFailed),
            ),
            (State::Polling { probe }, Event::ProbeCompleted { connected }) => if connected {
                cleanup_exec(Outcome::Succeeded)
            } else if probe + 1 < plan.max_probes {
                (State::Polling { probe: probe + 1 }, Action::SleepAndProbe)
            } else {
                cleanup_exec(Outcome::Failed(FailureReason::ConnectivityTimeout))
            },
            (State::Cleanup { pending }, Event::DriverStopped) => finish_exec(pending),
            (State::Cleanup { .. }, Event::DriverStopFailed) => finish_exec(
                Outcome::Failed(FailureReason::ProcessTerminationFailed),
            ),
            (s, _) => (s, Action::Ignore),
        };
        self.state = s2;
        a
    }

    /// The run's outcome, once the machine is done.
    pub fn outcome(&self) -> (r: Option<Outcome>)
        ensures
            (match self.state {
                State::Done { outcome } => r == Some(outcome),
                _ => r is None,
            }),
    {
        match self.state {
            State::Done { outcome } => Some(outcome),
            _ => None,
        }
    }
}

fn enter_submit_exec(plan: &Plan) -> (r: (State, Action))
    ensures
        r == enter_submit(*plan),
        state_wf(*plan, r.0),
{
    if plan.selector_count == 0 {
        enter_poll_exec(plan)
    } else {
        (State::Submitting { selector: 0 }, Action::FindElement { selector: 0 })
    }
}

fn enter_poll_exec(plan: &Plan) -> (r: (State, Action))
    ensures
        r == enter_poll(*plan),
        state_wf(*plan, r.0),
{
    if plan.max_probes == 0 {
        (
            State::Cleanup { pending: Outcome::Failed(FailureReason::ConnectivityTimeout) },
            Action::StopDriver,
        )
    } else {
        (State::Polling { probe: 0 }, Action::Probe)
    }
}

fn cleanup_exec(pending: Outcome) -> (r: (State, Action))
    ensures
        r == cleanup(pending),
{
    (State::Cleanup { pending }, Action::StopDriver)
}

fn finish_exec(outcome: Outcome) -> (r: (State, Action))
    ensures
        r == finish(outcome),
{
    (State::Done { outcome }, Action::Finish { outcome })
}

} // verus!
