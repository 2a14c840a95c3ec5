//! What holds of every run of the coordinator.
//!
//! A run is a sequence of events offered to the coordinator one after the
//! other; an event that the coordinator does not take leaves it as it was.
//! The laws below speak of the state after a run, of the answers given along
//! it, and of the fetches and deliveries that these answers ask for.

use crate::coordinator::{transition, ActionView, CoordinatorState, EventView, Phase, StepView, REFRESH_WAIT_MILLIS};
use crate::snapshot::SnapshotView;
use crate::status::StatusView;
use vstd::prelude::*;

verus! {

/// The state after offering `events` in order, starting from `s`.
pub open spec fn run(s: CoordinatorState, events: Seq<EventView>) -> CoordinatorState
    decreases events.len(),
{
    if events.len() == 0 {
        s
    } else {
        let before = run(s, events.drop_last());
        match transition(before, events.last()) {
            Some((next, _)) => next,
            None => before,
        }
    }
}

/// The answers given along the run, one for each event that was taken.
pub open spec fn answers(s: CoordinatorState, events: Seq<EventView>) -> Seq<StepView>
    decreases events.len(),
{
    if events.len() == 0 {
        Seq::empty()
    } else {
        let earlier = answers(s, events.drop_last());
        match transition(run(s, events.drop_last()), events.last()) {
            Some((_, answer)) => earlier.push(answer),
            None => earlier,
        }
    }
}

/// How many fetches the run asked for.
pub open spec fn fetches_started(s: CoordinatorState, events: Seq<EventView>) -> nat
    decreases events.len(),
{
    if events.len() == 0 {
        0
    } else {
        let earlier = fetches_started(s, events.drop_last());
        match transition(run(s, events.drop_last()), events.last()) {
            Some((_, answer)) => if answer.action == ActionView::Fetch {
                earlier + 1
            } else {
                earlier
            },
            None => earlier,
        }
    }
}

/// How many fetch outcomes, good or bad, the run took.
pub open spec fn fetches_finished(s: CoordinatorState, events: Seq<EventView>) -> nat
    decreases events.len(),
{
    if events.len() == 0 {
        0
    } else {
        let earlier = fetches_finished(s, events.drop_last());
        let last = events.last();
        if transition(run(s, events.drop_last()), last) is Some && (last is Fetched || last is FetchFailed) {
            earlier + 1
        } else {
            earlier
        }
    }
}

/// The snapshots that the run handed out for delivery, in order.
pub open spec fn deliveries(s: CoordinatorState, events: Seq<EventView>) -> Seq<SnapshotView>
    decreases events.len(),
{
    if events.len() == 0 {
        Seq::empty()
    } else {
        let earlier = deliveries(s, events.drop_last());
        match transition(run(s, events.drop_last()), events.last()) {
            Some((_, answer)) => match answer.action {
                ActionView::Deliver(snapshot) => earlier.push(snapshot),
                _ => earlier,
            },
            None => earlier,
        }
    }
}

/// An upper bound on the events that the coordinator takes before it reads
/// the shutdown flag again.
pub open spec fn events_until_poll(phase: Phase) -> nat {
    match phase {
        Phase::Polling => 0,
        Phase::Stopped => 0,
        Phase::DeliveringCached => 1,
        Phase::DeliveringFetched => 1,
        Phase::Fetching => 2,
        Phase::LoadingCache => 3,
        Phase::AwaitingRefresh => 3,
    }
}

/// Offering one more event extends a run by one step of the coordinator.
pub proof fn lemma_one_more_event(s: CoordinatorState, events: Seq<EventView>, event: EventView)
    ensures
        ({
            let longer = events.push(event);
            let before = run(s, events);
            match transition(before, event) {
                Some((next, answer)) => {
                    &&& run(s, longer) == next
                    &&& answers(s, longer) == answers(s, events).push(answer)
                    &&& fetches_started(s, longer) == fetches_started(s, events) + (if answer.action
                        == ActionView::Fetch {
                        1nat
                    } else {
                        0nat
                    })
                    &&& deliveries(s, longer) == (match answer.action {
                        ActionView::Deliver(snapshot) => deliveries(s, events).push(snapshot),
                        _ => deliveries(s, events),
                    })
                },
                None => {
                    &&& run(s, longer) == before
                    &&& answers(s, longer) == answers(s, events)
                    &&& fetches_started(s, longer) == fetches_started(s, events)
                    &&& deliveries(s, longer) == deliveries(s, events)
                },
            }
        }),
{
    assert(events.push(event).drop_last() =~= events);
}

/// Fetches started and finished balance: along any run, the fetches asked
/// for exceed the fetch outcomes taken by one while a fetch is in flight, and
/// by nothing otherwise.
pub proof fn lemma_fetch_balance(s: CoordinatorState, events: Seq<EventView>)
    ensures
        fetches_started(s, events) + (if s.fetch_in_flight() {
            1nat
        } else {
            0nat
        }) == fetches_finished(s, events) + (if run(s, events).fetch_in_flight() {
            1nat
        } else {
            0nat
        }),
    decreases events.len(),
{
    if events.len() > 0 {
        lemma_fetch_balance(s, events.drop_last());
    }
}

/// At most one fetch is in flight: whatever events a fresh coordinator is
/// offered, it has asked for at most one fetch more than it has seen finish,
/// and for exactly one more while a fetch is in flight.
pub proof fn lemma_at_most_one_fetch_in_flight(events: Seq<EventView>)
    ensures
        fetches_finished(CoordinatorState::initial(), events) <= fetches_started(
            CoordinatorState::initial(),
            events,
        ) <= fetches_finished(CoordinatorState::initial(), events) + 1,
        run(CoordinatorState::initial(), events).fetch_in_flight() <==> fetches_started(
            CoordinatorState::initial(),
            events,
        ) == fetches_finished(CoordinatorState::initial(), events) + 1,
{
    lemma_fetch_balance(CoordinatorState::initial(), events);
}

/// Refresh requests that arrive while a fetch is in flight start nothing:
/// the coordinator takes none of them, answers none, and stays as it was.
pub proof fn lemma_requests_during_fetch_start_nothing(s: CoordinatorState, events: Seq<EventView>)
    requires
        s.fetch_in_flight(),
        forall|i: int| 0 <= i < events.len() ==> events[i] == EventView::RefreshRequested,
    ensures
        run(s, events) == s,
        answers(s, events) == Seq::<StepView>::empty(),
        fetches_started(s, events) == 0,
    decreases events.len(),
{
    if events.len() > 0 {
        lemma_requests_during_fetch_start_nothing(s, events.drop_last());
    }
}

/// A fetch is asked for only when a refresh request arrives during the wait,
/// or when the first cycle finds no cache.
pub proof fn lemma_fetch_only_on_demand(s: CoordinatorState, event: EventView)
    ensures
        match transition(s, event) {
            Some((_, answer)) => answer.action == ActionView::Fetch <==> (s.phase == Phase::AwaitingRefresh
                && event == EventView::RefreshRequested) || (s.phase == Phase::LoadingCache && event
                == EventView::CacheUnavailable),
            None => true,
        },
{
}

/// Cache first: when the first cycle finds a cached snapshot, the cycle
/// delivers that snapshot and nothing else, asks for no fetch, and ends at
/// the top of the loop with the first cycle behind it, whether or not the
/// delivery succeeded.
pub proof fn lemma_cache_hit_skips_fetch(snapshot: SnapshotView, delivered: bool)
    ensures
        ({
            let events = seq![
                EventView::ShutdownChecked(false),
                EventView::CacheLoaded(snapshot),
                if delivered {
                    EventView::Delivered
                } else {
                    EventView::DeliveryFailed
                },
            ];
            let s = CoordinatorState::initial();
            &&& fetches_started(s, events) == 0
            &&& deliveries(s, events) == seq![snapshot]
            &&& run(s, events) == (CoordinatorState { phase: Phase::Polling, first_cycle: false })
            &&& answers(s, events) == seq![
                StepView { status: Some(StatusView::loading()), action: ActionView::LoadCache },
                StepView { status: None, action: ActionView::Deliver(snapshot) },
                StepView {
                    status: Some(
                        if delivered {
                            StatusView::cached_shown()
                        } else {
                            StatusView::delivery_failed()
                        },
                    ),
                    action: ActionView::CheckShutdown,
                },
            ]
        }),
{
    let last = if delivered {
        EventView::Delivered
    } else {
        EventView::DeliveryFailed
    };
    let s = CoordinatorState::initial();
    let e0 = Seq::<EventView>::empty();
    let e1 = e0.push(EventView::ShutdownChecked(false));
    let e2 = e1.push(EventView::CacheLoaded(snapshot));
    let e3 = e2.push(last);
    lemma_one_more_event(s, e0, EventView::ShutdownChecked(false));
    lemma_one_more_event(s, e1, EventView::CacheLoaded(snapshot));
    lemma_one_more_event(s, e2, last);
    assert(e3 =~= seq![EventView::ShutdownChecked(false), EventView::CacheLoaded(snapshot), last]);
    assert(deliveries(s, e3) =~= seq![snapshot]);
    assert(answers(s, e3) =~= seq![
        StepView { status: Some(StatusView::loading()), action: ActionView::LoadCache },
        StepView { status: None, action: ActionView::Deliver(snapshot) },
        StepView {
            status: Some(
                if delivered {
                    StatusView::cached_shown()
                } else {
                    StatusView::delivery_failed()
                },
            ),
            action: ActionView::CheckShutdown,
        },
    ]);
}

/// A failed fetch delivers nothing: offering `FetchFailed` after any run
/// leaves the sequence of delivered snapshots as it was.
pub proof fn lemma_failed_fetch_delivers_nothing(s: CoordinatorState, events: Seq<EventView>, reason: Seq<char>)
    ensures
        deliveries(s, events.push(EventView::FetchFailed(reason))) == deliveries(s, events),
{
    lemma_one_more_event(s, events, EventView::FetchFailed(reason));
}

/// Only what was loaded or fetched is delivered: every snapshot that a run
/// hands out is, whole and unchanged, the snapshot of a `CacheLoaded` or
/// `Fetched` event of that run.
pub proof fn lemma_deliveries_come_from_sources(s: CoordinatorState, events: Seq<EventView>)
    ensures
        forall|i: int|
            0 <= i < deliveries(s, events).len() ==> exists|j: int|
                0 <= j < events.len() && (events[j] == EventView::CacheLoaded(
                    #[trigger] deliveries(s, events)[i],
                ) || events[j] == EventView::Fetched(deliveries(s, events)[i])),
    decreases events.len(),
{
    if events.len() > 0 {
        let shorter = events.drop_last();
        lemma_deliveries_come_from_sources(s, shorter);
        let earlier = deliveries(s, shorter);
        let all = deliveries(s, events);
        assert forall|i: int| 0 <= i < all.len() implies exists|j: int|
            0 <= j < events.len() && (events[j] == EventView::CacheLoaded(#[trigger] all[i]) || events[j]
                == EventView::Fetched(all[i])) by {
            if i < earlier.len() {
                assert(all[i] == earlier[i]);
                let j = choose|j: int|
                    0 <= j < shorter.len() && (shorter[j] == EventView::CacheLoaded(earlier[i]) || shorter[j]
                        == EventView::Fetched(earlier[i]));
                assert(events[j] == shorter[j]);
            } else {
                let j = events.len() - 1;
                assert(events[j] == EventView::CacheLoaded(all[i]) || events[j] == EventView::Fetched(all[i]));
            }
        }
    }
}

/// Every cycle reports: the step that begins work publishes "loading", and
/// the step that returns to the top of the loop after work publishes how the
/// cycle ended.
pub proof fn lemma_cycle_reports_status(s: CoordinatorState, event: EventView)
    ensures
        match transition(s, event) {
            Some((next, answer)) => {
                &&& (s.phase == Phase::Polling || s.phase == Phase::AwaitingRefresh) && (next.phase
                    == Phase::LoadingCache || next.phase == Phase::Fetching) ==> answer.status == Some(
                    StatusView::loading(),
                )
                &&& s.phase != Phase::AwaitingRefresh && next.phase == Phase::Polling ==> answer.status is Some
            },
            None => true,
        },
{
}

/// A stopped coordinator is silent: it takes no event, gives no answer and
/// hands out no snapshot, whatever it is offered.
pub proof fn lemma_stopped_is_silent(s: CoordinatorState, events: Seq<EventView>)
    requires
        s.phase == Phase::Stopped,
    ensures
        run(s, events) == s,
        answers(s, events) == Seq::<StepView>::empty(),
        deliveries(s, events) == Seq::<SnapshotView>::empty(),
        fetches_started(s, events) == 0,
    decreases events.len(),
{
    if events.len() > 0 {
        lemma_stopped_is_silent(s, events.drop_last());
    }
}

/// Shutdown is seen at the top of the loop: a coordinator that reads a set
/// flag stops at once, publishing nothing.
pub proof fn lemma_shutdown_stops(s: CoordinatorState)
    requires
        s.phase == Phase::Polling,
    ensures
        transition(s, EventView::ShutdownChecked(true)) == Some(
            (
                CoordinatorState { phase: Phase::Stopped, first_cycle: s.first_cycle },
                StepView { status: None, action: ActionView::Halt },
            ),
        ),
{
}

/// The shutdown flag is read again soon: every event taken away from the top
/// of the loop brings the next read closer, at most three events lie between
/// two reads, and only one of them can be a timed wait, which is asked for
/// at the top of the loop alone and lasts no longer than
/// `REFRESH_WAIT_MILLIS`.
pub proof fn lemma_poll_is_near(s: CoordinatorState, event: EventView)
    ensures
        events_until_poll(s.phase) <= 3,
        match transition(s, event) {
            Some((next, answer)) => {
                &&& s.phase != Phase::Polling ==> events_until_poll(next.phase) < events_until_poll(s.phase)
                &&& answer.action is AwaitRefresh ==> s.phase == Phase::Polling && answer.action
                    == (ActionView::AwaitRefresh { timeout_millis: REFRESH_WAIT_MILLIS as int })
                &&& next.phase == Phase::Polling <==> answer.action == ActionView::CheckShutdown
            },
            None => true,
        },
{
}

} // verus!
