use captive_autoconnect::orchestrator::{
    Action, Event, FailureReason, Orchestrator, Outcome, Plan, State,
};
use captive_autoconnect::supervisor::parse_started_port;

fn portal_plan() -> Plan {
    Plan { selector_count: 1, max_probes: 10 }
}

#[test]
fn run_succeeds_when_first_probe_connects() {
    // Driver starts on a fixed port, navigation succeeds, no selector
    // matches, and the first probe reports connectivity.
    let mut m = Orchestrator::new(portal_plan());
    assert_eq!(m.handle(Event::Start), Action::SpawnDriver);
    assert_eq!(
        m.handle(Event::DriverSpawned { port: 41211 }),
        Action::OpenSession { port: 41211 }
    );
    assert_eq!(m.handle(Event::SessionOpened), Action::Navigate);
    assert_eq!(
        m.handle(Event::NavigationSucceeded),
        Action::FindElement { selector: 0 }
    );
    assert_eq!(m.handle(Event::SelectorNotMatched), Action::Probe);
    assert_eq!(
        m.handle(Event::ProbeCompleted { connected: true }),
        Action::StopDriver
    );
    assert_eq!(
        m.handle(Event::DriverStopped),
        Action::Finish { outcome: Outcome::Succeeded }
    );
    assert_eq!(m.outcome(), Some(Outcome::Succeeded));
}

#[test]
fn run_fails_without_cleanup_when_spawn_fails() {
    // The driver executable is missing: the run fails at once and no stop is
    // ever requested, because nothing was started.
    let mut m = Orchestrator::new(portal_plan());
    let mut actions = Vec::new();
    actions.push(m.handle(Event::Start));
    actions.push(m.handle(Event::DriverSpawnFailed));
    assert_eq!(
        m.outcome(),
        Some(Outcome::Failed(FailureReason::ExecutableNotFound))
    );
    assert!(actions.iter().all(|a| *a != Action::StopDriver));
}

#[test]
fn run_times_out_after_budget_and_stops_driver_once() {
    // Navigation succeeds, the first selector matches and is clicked, and all
    // ten probes report no connectivity: the run fails with a connectivity
    // timeout and the driver is stopped exactly once.
    let mut m = Orchestrator::new(portal_plan());
    let mut actions = Vec::new();
    actions.push(m.handle(Event::Start));
    actions.push(m.handle(Event::DriverSpawned { port: 41211 }));
    actions.push(m.handle(Event::SessionOpened));
    actions.push(m.handle(Event::NavigationSucceeded));
    assert_eq!(*actions.last().unwrap(), Action::FindElement { selector: 0 });
    actions.push(m.handle(Event::SelectorMatched));
    assert_eq!(*actions.last().unwrap(), Action::ClickElement { selector: 0 });
    actions.push(m.handle(Event::ClickSucceeded));
    assert_eq!(*actions.last().unwrap(), Action::Probe);
    for i in 0..10 {
        actions.push(m.handle(Event::ProbeCompleted { connected: false }));
        if i < 9 {
            assert_eq!(*actions.last().unwrap(), Action::SleepAndProbe);
        }
    }
    assert_eq!(*actions.last().unwrap(), Action::StopDriver);
    actions.push(m.handle(Event::DriverStopped));
    assert_eq!(
        m.outcome(),
        Some(Outcome::Failed(FailureReason::ConnectivityTimeout))
    );
    let probes = actions
        .iter()
        .filter(|a| **a == Action::Probe || **a == Action::SleepAndProbe)
        .count();
    assert_eq!(probes, 10);
    let stops = actions.iter().filter(|a| **a == Action::StopDriver).count();
    assert_eq!(stops, 1);
}

#[test]
fn discovered_port_feeds_the_session() {
    // Port-discovery mode: the driver announces its port on standard output,
    // the supervisor resolves it, and the run proceeds against that port.
    let port = parse_started_port("ChromeDriver was started successfully on port 9515.")
        .expect("the announcement line names a port");
    assert_eq!(port, 9515);
    let mut m = Orchestrator::new(portal_plan());
    assert_eq!(m.handle(Event::Start), Action::SpawnDriver);
    assert_eq!(
        m.handle(Event::DriverSpawned { port }),
        Action::OpenSession { port: 9515 }
    );
    assert_eq!(m.handle(Event::SessionOpened), Action::Navigate);
}

#[test]
fn navigation_failure_still_stops_driver() {
    let mut m = Orchestrator::new(portal_plan());
    m.handle(Event::Start);
    m.handle(Event::DriverSpawned { port: 41211 });
    m.handle(Event::SessionOpened);
    assert_eq!(m.handle(Event::NavigationFailed), Action::StopDriver);
    assert_eq!(
        m.handle(Event::DriverStopped),
        Action::Finish { outcome: Outcome::Failed(FailureReason::NavigationFailed) }
    );
    assert_eq!(
        m.outcome(),
        Some(Outcome::Failed(FailureReason::NavigationFailed))
    );
}

#[test]
fn session_failure_still_stops_driver() {
    let mut m = Orchestrator::new(portal_plan());
    m.handle(Event::Start);
    m.handle(Event::DriverSpawned { port: 41211 });
    assert_eq!(m.handle(Event::SessionOpenFailed), Action::StopDriver);
    m.handle(Event::DriverStopped);
    assert_eq!(
        m.outcome(),
        Some(Outcome::Failed(FailureReason::SessionCreationFailed))
    );
}

#[test]
fn click_failure_is_fatal_and_stops_driver() {
    let mut m = Orchestrator::new(portal_plan());
    m.handle(Event::Start);
    m.handle(Event::DriverSpawned { port: 41211 });
    m.handle(Event::SessionOpened);
    m.handle(Event::NavigationSucceeded);
    m.handle(Event::SelectorMatched);
    assert_eq!(m.handle(Event::ClickFailed), Action::StopDriver);
    m.handle(Event::DriverStopped);
    assert_eq!(
        m.outcome(),
        Some(Outcome::Failed(FailureReason::ElementClickFailed))
    );
}

#[test]
fn port_discovery_failure_finishes_without_cleanup() {
    let mut m = Orchestrator::new(portal_plan());
    m.handle(Event::Start);
    let a = m.handle(Event::PortDiscoveryFailed);
    assert_eq!(
        a,
        Action::Finish { outcome: Outcome::Failed(FailureReason::PortDiscoveryFailed) }
    );
    assert_eq!(
        m.outcome(),
        Some(Outcome::Failed(FailureReason::PortDiscoveryFailed))
    );
}

#[test]
fn stop_failure_overrides_pending_outcome() {
    let mut m = Orchestrator::new(portal_plan());
    m.handle(Event::Start);
    m.handle(Event::DriverSpawned { port: 41211 });
    m.handle(Event::SessionOpened);
    m.handle(Event::NavigationSucceeded);
    m.handle(Event::SelectorNotMatched);
    m.handle(Event::ProbeCompleted { connected: true });
    m.handle(Event::DriverStopFailed);
    assert_eq!(
        m.outcome(),
        Some(Outcome::Failed(FailureReason::ProcessTerminationFailed))
    );
}

#[test]
fn selectors_are_tried_in_order_until_one_matches() {
    // Three selectors: the first two match nothing, the third matches and is
    // clicked; no further lookup happens after the click.
    let mut m = Orchestrator::new(Plan { selector_count: 3, max_probes: 10 });
    m.handle(Event::Start);
    m.handle(Event::DriverSpawned { port: 41211 });
    m.handle(Event::SessionOpened);
    assert_eq!(
        m.handle(Event::NavigationSucceeded),
        Action::FindElement { selector: 0 }
    );
    assert_eq!(
        m.handle(Event::SelectorNotMatched),
        Action::FindElement { selector: 1 }
    );
    assert_eq!(
        m.handle(Event::SelectorNotMatched),
        Action::FindElement { selector: 2 }
    );
    assert_eq!(
        m.handle(Event::SelectorMatched),
        Action::ClickElement { selector: 2 }
    );
    assert_eq!(m.handle(Event::ClickSucceeded), Action::Probe);
    assert_eq!(m.state, State::Polling { probe: 0 });
}

#[test]
fn unrelated_events_are_ignored() {
    let mut m = Orchestrator::new(portal_plan());
    assert_eq!(m.handle(Event::DriverStopped), Action::Ignore);
    assert_eq!(m.state, State::Idle);
    m.handle(Event::Start);
    assert_eq!(m.handle(Event::SessionOpened), Action::Ignore);
    assert_eq!(m.state, State::DriverStarting);
    assert_eq!(m.outcome(), None);
}

#[test]
fn empty_selector_list_goes_straight_to_polling() {
    let mut m = Orchestrator::new(Plan { selector_count: 0, max_probes: 10 });
    m.handle(Event::Start);
    m.handle(Event::DriverSpawned { port: 41211 });
    m.handle(Event::SessionOpened);
    assert_eq!(m.handle(Event::NavigationSucceeded), Action::Probe);
    assert_eq!(m.state, State::Polling { probe: 0 });
}

#[test]
fn zero_probe_budget_times_out_at_once() {
    let mut m = Orchestrator::new(Plan { selector_count: 0, max_probes: 0 });
    m.handle(Event::Start);
    m.handle(Event::DriverSpawned { port: 41211 });
    m.handle(Event::SessionOpened);
    assert_eq!(m.handle(Event::NavigationSucceeded), Action::StopDriver);
    m.handle(Event::DriverStopped);
    assert_eq!(
        m.outcome(),
        Some(Outcome::Failed(FailureReason::ConnectivityTimeout))
    );
}
