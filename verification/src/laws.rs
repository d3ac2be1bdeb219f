//! Laws of the orchestrator, proved over whole runs: a run is the fold of the
//! transition relation over a sequence of events, and these lemmas state what
//! holds of the actions any run requests — cleanup exactly once per started
//! driver, the probe budget respected, a missing submit element never fatal,
//! and selectors tried in priority order.

use crate::orchestrator::{next, state_wf, Action, Event, FailureReason, Outcome, Plan, State};
use vstd::prelude::*;

verus! {

/// The state reached by feeding `events`, in order, from `s`.
pub open spec fn run_state(plan: Plan, s: State, events: Seq<Event>) -> State
    decreases events.len(),
{
    if events.len() == 0 {
        s
    } else {
        next(plan, run_state(plan, s, events.drop_last()), events.last()).0
    }
}

/// The actions requested while feeding `events`, in order, from `s`.
pub open spec fn run_actions(plan: Plan, s: State, events: Seq<Event>) -> Seq<Action>
    decreases events.len(),
{
    if events.len() == 0 {
        Seq::empty()
    } else {
        run_actions(plan, s, events.drop_last()).push(
            next(plan, run_state(plan, s, events.drop_last()), events.last()).1,
        )
    }
}

/// How many session openings a run requested; one per successful driver
/// start, so this also counts the starts that succeeded.
pub open spec fn count_opens(acts: Seq<Action>) -> nat
    decreases acts.len(),
{
    if acts.len() == 0 {
        0
    } else {
        count_opens(acts.drop_last()) + (if acts.last() matches Action::OpenSession { .. } {
            1nat
        } else {
            0nat
        })
    }
}

/// How many driver stops a run requested.
pub open spec fn count_stops(acts: Seq<Action>) -> nat
    decreases acts.len(),
{
    if acts.len() == 0 {
        0
    } else {
        count_stops(acts.drop_last()) + (if acts.last() is StopDriver {
            1nat
        } else {
            0nat
        })
    }
}

/// How many connectivity probes a run requested.
pub open spec fn count_probes(acts: Seq<Action>) -> nat
    decreases acts.len(),
{
    if acts.len() == 0 {
        0
    } else {
        count_probes(acts.drop_last()) + (if acts.last() is Probe || acts.last()
            is SleepAndProbe {
            1nat
        } else {
            0nat
        })
    }
}

/// The selector indices a run asked to look up, in request order.
pub open spec fn find_indices(acts: Seq<Action>) -> Seq<usize>
    decreases acts.len(),
{
    if acts.len() == 0 {
        Seq::empty()
    } else {
        match acts.last() {
            Action::FindElement { selector } => find_indices(acts.drop_last()).push(selector),
            _ => find_indices(acts.drop_last()),
        }
    }
}

/// The selector indices a run asked to click, in request order.
pub open spec fn click_indices(acts: Seq<Action>) -> Seq<usize>
    decreases acts.len(),
{
    if acts.len() == 0 {
        Seq::empty()
    } else {
        match acts.last() {
            Action::ClickElement { selector } => click_indices(acts.drop_last()).push(selector),
            _ => click_indices(acts.drop_last()),
        }
    }
}

/// The first `j` selector indices of the priority list, in order.
pub open spec fn tried_prefix(j: int) -> Seq<usize> {
    Seq::new(j as nat, |i: int| i as usize)
}

/// Whether the state still owes the caller a driver stop: the driver is
/// running and no stop has been requested yet.
pub open spec fn pending_stop(s: State) -> nat {
    match s {
        State::SessionOpening => 1,
        State::Navigating => 1,
        State::Submitting { .. } => 1,
        State::Clicking { .. } => 1,
        State::Polling { .. } => 1,
        _ => 0,
    }
}

/// Selector discipline of a run's actions: the lookups are exactly the first
/// `j` selectors of the priority list in order, for some `j`, and at most one
/// click was requested — for the last selector looked up.
pub open spec fn submit_order_ok(plan: Plan, acts: Seq<Action>) -> bool {
    exists|j: int|
        0 <= j <= plan.selector_count && find_indices(acts) == tried_prefix(j) && (click_indices(
            acts,
        ).len() == 0 || (j >= 1 && click_indices(acts) == seq![(j - 1) as usize]))
}

/// The run ended, or is cleaning up, with success.
pub open spec fn reached_success(s: State) -> bool {
    match s {
        State::Cleanup { pending: Outcome::Succeeded } => true,
        State::Done { outcome: Outcome::Succeeded } => true,
        _ => false,
    }
}

/// The run ended, or is cleaning up, with this failure reason.
pub open spec fn reached_failure(s: State, r: FailureReason) -> bool {
    match s {
        State::Cleanup { pending: Outcome::Failed(f) } => f == r,
        State::Done { outcome: Outcome::Failed(f) } => f == r,
        _ => false,
    }
}


/// Some probe in the event sequence reported connectivity.
pub open spec fn saw_connected_probe(events: Seq<Event>) -> bool {
    exists|i: int|
        0 <= i < events.len() && (#[trigger] events[i]) matches Event::ProbeCompleted {
            connected: true,
        }
}

/// Some click in the event sequence actually failed.
pub open spec fn saw_click_failure(events: Seq<Event>) -> bool {
    exists|i: int| 0 <= i < events.len() && (#[trigger] events[i]) is ClickFailed
}

/// Some navigation in the event sequence actually failed.
pub open spec fn saw_navigation_failure(events: Seq<Event>) -> bool {
    exists|i: int| 0 <= i < events.len() && (#[trigger] events[i]) is NavigationFailed
}

/// The inductive invariant tying a run's state to the actions it requested
/// and the events that drove it.
pub open spec fn run_inv(plan: Plan, s: State, acts: Seq<Action>, events: Seq<Event>) -> bool {
    &&& state_wf(plan, s)
    &&& count_opens(acts) <= 1
    &&& count_stops(acts) + pending_stop(s) == count_opens(acts)
    &&& count_probes(acts) <= plan.max_probes
    &&& submit_order_ok(plan, acts)
    &&& ((s is Idle || s is DriverStarting) ==> count_opens(acts) == 0 && count_probes(acts) == 0
        && find_indices(acts).len() == 0 && click_indices(acts).len() == 0)
    &&& ((s is SessionOpening || s is Navigating) ==> count_probes(acts) == 0 && find_indices(
        acts,
    ).len() == 0 && click_indices(acts).len() == 0)
    &&& (match s {
        State::Submitting { selector } => count_probes(acts) == 0 && find_indices(acts)
            == tried_prefix(selector + 1) && click_indices(acts).len() == 0,
        State::Clicking { selector } => count_probes(acts) == 0 && find_indices(acts)
            == tried_prefix(selector + 1) && click_indices(acts) == seq![selector],
        State::Polling { probe } => count_probes(acts) == probe + 1,
        _ => true,
    })
    &&& (reached_success(s) ==> saw_connected_probe(events))
    &&& (reached_failure(s, FailureReason::ElementClickFailed) ==> saw_click_failure(events))
    &&& (reached_failure(s, FailureReason::NavigationFailed) ==> saw_navigation_failure(events))
}

/// Appending one action extends each count by that action's contribution.
proof fn lemma_counts_push(acts: Seq<Action>, a: Action)
    ensures
        count_opens(acts.push(a)) == count_opens(acts) + (if a matches Action::OpenSession { .. } {
            1nat
        } else {
            0nat
        }),
        count_stops(acts.push(a)) == count_stops(acts) + (if a is StopDriver {
            1nat
        } else {
            0nat
        }),
        count_probes(acts.push(a)) == count_probes(acts) + (if a is Probe || a is SleepAndProbe {
            1nat
        } else {
            0nat
        }),
        find_indices(acts.push(a)) == (match a {
            Action::FindElement { selector } => find_indices(acts).push(selector),
            _ => find_indices(acts),
        }),
        click_indices(acts.push(a)) == (match a {
            Action::ClickElement { selector } => click_indices(acts).push(selector),
            _ => click_indices(acts),
        }),
{
    assert(acts.push(a).drop_last() =~= acts);
    assert(acts.push(a).last() == a);
}

/// One step preserves the invariant.
proof fn lemma_step_preserves_inv(plan: Plan, s: State, acts: Seq<Action>, events: Seq<Event>, e: Event)
    requires
        run_inv(plan, s, acts, events),
    ensures
        run_inv(plan, next(plan, s, e).0, acts.push(next(plan, s, e).1), events.push(e)),
{
    let (s2, a) = next(plan, s, e);
    lemma_counts_push(acts, a);
    assert forall|i: int| 0 <= i < events.len() implies events.push(e)[i] == events[i] by {}
    assert(events.push(e)[events.len() as int] == e);
    match a {
        Action::FindElement { selector } => {
            assert(find_indices(acts) == tried_prefix(selector as int));
            assert(find_indices(acts).push(selector) =~= tried_prefix(selector + 1));
        },
        Action::ClickElement { selector } => {
            assert(click_indices(acts).push(selector) =~= seq![selector]);
        },
        _ => {},
    }
    assert(submit_order_ok(plan, acts.push(a))) by {
        let j0 = choose|j: int|
            0 <= j <= plan.selector_count && find_indices(acts) == tried_prefix(j) && (
            click_indices(acts).len() == 0 || (j >= 1 && click_indices(acts) == seq![
                (j - 1) as usize,
            ]));
        match a {
            Action::FindElement { selector } => {
                assert(0 <= selector + 1 <= plan.selector_count && find_indices(acts.push(a))
                    == tried_prefix(selector + 1) && click_indices(acts.push(a)).len() == 0);
            },
            Action::ClickElement { selector } => {
                assert(0 <= selector + 1 <= plan.selector_count && find_indices(acts.push(a))
                    == tried_prefix(selector + 1) && click_indices(acts.push(a)) == seq![selector]);
            },
            _ => {
                assert(0 <= j0 <= plan.selector_count && find_indices(acts.push(a))
                    == tried_prefix(j0) && (click_indices(acts.push(a)).len() == 0 || (j0 >= 1
                    && click_indices(acts.push(a)) == seq![(j0 - 1) as usize])));
            },
        }
    }
}

/// The invariant holds of every run started idle.
proof fn lemma_run_inv(plan: Plan, events: Seq<Event>)
    ensures
        run_inv(
            plan,
            run_state(plan, State::Idle, events),
            run_actions(plan, State::Idle, events),
            events,
        ),
    decreases events.len(),
{
    if events.len() == 0 {
        assert(find_indices(Seq::<Action>::empty()) =~= tried_prefix(0));
        assert(submit_order_ok(plan, Seq::<Action>::empty())) by {
            assert(0 <= 0 <= plan.selector_count && find_indices(Seq::<Action>::empty())
                == tried_prefix(0) && click_indices(Seq::<Action>::empty()).len() == 0);
        }
    } else {
        let prefix = events.drop_last();
        lemma_run_inv(plan, prefix);
        lemma_step_preserves_inv(
            plan,
            run_state(plan, State::Idle, prefix),
            run_actions(plan, State::Idle, prefix),
            prefix,
            events.last(),
        );
        assert(prefix.push(events.last()) =~= events);
    }
}

/// Once the driver has been started, it is stopped exactly once before the
/// run finishes, on every path; before a successful start, no stop is ever
/// requested. Session openings count the successful starts: one open is
/// requested per started driver.
pub proof fn lemma_driver_stopped_exactly_once(plan: Plan, events: Seq<Event>)
    ensures
        ({
            let s = run_state(plan, State::Idle, events);
            let acts = run_actions(plan, State::Idle, events);
            &&& count_opens(acts) <= 1
            &&& count_stops(acts) + pending_stop(s) == count_opens(acts)
            &&& (s is Done ==> count_stops(acts) == count_opens(acts))
            &&& (s is Done && count_opens(acts) == 1 ==> count_stops(acts) == 1)
            &&& (count_opens(acts) == 0 ==> count_stops(acts) == 0)
            &&& count_stops(acts) <= 1
        }),
{
    lemma_run_inv(plan, events);
}

/// A finished run is finished: no event moves the machine out of its final
/// state or changes its outcome, and nothing further is requested.
pub proof fn lemma_done_is_final(plan: Plan, outcome: Outcome, e: Event)
    ensures
        next(plan, State::Done { outcome }, e) == (State::Done { outcome }, Action::Ignore),
{
}

/// The poller respects its budget: a run never requests more probes than the
/// plan allows, and it finishes with success only after a probe reported
/// connectivity.
pub proof fn lemma_probe_budget(plan: Plan, events: Seq<Event>)
    ensures
        count_probes(run_actions(plan, State::Idle, events)) <= plan.max_probes,
        reached_success(run_state(plan, State::Idle, events)) ==> saw_connected_probe(events),
{
    lemma_run_inv(plan, events);
}

/// The first probe that reports connectivity ends polling with success at
/// once: cleanup is requested and the pending outcome is success.
pub proof fn lemma_first_connected_probe_succeeds(plan: Plan, probe: u64)
    ensures
        next(plan, State::Polling { probe }, Event::ProbeCompleted { connected: true }) == (
        State::Cleanup { pending: Outcome::Succeeded },
        Action::StopDriver,
        ),
{
}

/// A selector that matches nothing is not fatal: the machine moves on to the
/// next selector of the priority list, or — after the last one — straight to
/// polling. It never cleans up or finishes on that event.
pub proof fn lemma_none_found_not_fatal(plan: Plan, selector: usize)
    requires
        plan.max_probes >= 1,
        selector < plan.selector_count,
    ensures
        ({
            let (s2, a) = next(plan, State::Submitting { selector }, Event::SelectorNotMatched);
            &&& (s2 matches State::Submitting { selector: n } && n == selector + 1 && a == (
                Action::FindElement { selector: (selector + 1) as usize }
            )) || (s2 == (State::Polling { probe: 0u64 }) && a == Action::Probe)
            &&& !(s2 is Cleanup)
            &&& !(s2 is Done)
        }),
{
}

/// Only an actual click failure, or an actual navigation failure, puts the
/// run into the corresponding failed outcome: a run that reached it saw the
/// failing event itself.
pub proof fn lemma_failure_needs_cause(plan: Plan, events: Seq<Event>)
    ensures
        reached_failure(
            run_state(plan, State::Idle, events),
            FailureReason::ElementClickFailed,
        ) ==> saw_click_failure(events),
        reached_failure(run_state(plan, State::Idle, events), FailureReason::NavigationFailed)
            ==> saw_navigation_failure(events),
{
    lemma_run_inv(plan, events);
}

/// Selectors are tried deterministically in priority-list order: the lookups
/// of any run are exactly the first `j` selectors for some `j`, at most one
/// click is requested, and a click goes to the last selector looked up — so
/// no selector after the first match is ever tried.
pub proof fn lemma_selector_priority_order(plan: Plan, events: Seq<Event>)
    ensures
        submit_order_ok(plan, run_actions(plan, State::Idle, events)),
{
    lemma_run_inv(plan, events);
}

} // verus!
