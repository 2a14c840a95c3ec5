use gacha_stats::coordinator::{Action, Coordinator, Event, Phase, ProtocolError, Step, REFRESH_WAIT_MILLIS};
use gacha_stats::snapshot::StatisticsSnapshot;
use gacha_stats::status::{StatusKind, StatusUpdate};
use gacha_stats::tally::{Highlight, PullTally, TierCounts};

fn snapshot_of(category_id: i32) -> StatisticsSnapshot {
    let mut s = StatisticsSnapshot::new();
    let hs = vec![Highlight::new("Rare Item".to_string(), 1)];
    s.insert(category_id, PullTally::new(10, 2, TierCounts { low: 8, mid: 1, high: 1 }, hs).unwrap());
    s
}

fn all_events() -> Vec<Event> {
    vec![
        Event::ShutdownChecked(false),
        Event::ShutdownChecked(true),
        Event::WaitTimedOut,
        Event::RefreshRequested,
        Event::CacheLoaded(snapshot_of(1)),
        Event::CacheUnavailable,
        Event::Fetched(snapshot_of(1)),
        Event::FetchFailed("x".to_string()),
        Event::Delivered,
        Event::DeliveryFailed,
    ]
}

/// A coordinator brought to `phase` by the shortest run.
fn coordinator_in(phase: Phase) -> Coordinator {
    let mut c = Coordinator::new();
    let events: Vec<Event> = match phase {
        Phase::Polling => vec![],
        Phase::LoadingCache => vec![Event::ShutdownChecked(false)],
        Phase::DeliveringCached => vec![Event::ShutdownChecked(false), Event::CacheLoaded(snapshot_of(1))],
        Phase::Fetching => vec![Event::ShutdownChecked(false), Event::CacheUnavailable],
        Phase::DeliveringFetched => {
            vec![Event::ShutdownChecked(false), Event::CacheUnavailable, Event::Fetched(snapshot_of(1))]
        }
        Phase::AwaitingRefresh => vec![
            Event::ShutdownChecked(false),
            Event::CacheUnavailable,
            Event::FetchFailed("x".to_string()),
            Event::ShutdownChecked(false),
        ],
        Phase::Stopped => vec![Event::ShutdownChecked(true)],
    };
    for e in events {
        c.step(e).unwrap();
    }
    assert_eq!(c.phase(), phase);
    c
}

#[test]
fn wait_is_one_second() {
    assert_eq!(REFRESH_WAIT_MILLIS, 1000);
}

#[test]
fn new_coordinator_is_at_the_top_of_its_first_cycle() {
    let c = Coordinator::new();
    assert_eq!(c.phase(), Phase::Polling);
    assert!(c.is_first_cycle());
    assert!(!c.is_stopped());
}

#[test]
fn first_cycle_begins_with_loading_and_the_cache() {
    let mut c = Coordinator::new();
    let step = c.step(Event::ShutdownChecked(false)).unwrap();
    assert_eq!(step, Step { status: Some(StatusUpdate::loading()), action: Action::LoadCache });
    assert_eq!(c.phase(), Phase::LoadingCache);
    assert!(!c.is_first_cycle());
}

#[test]
fn shutdown_at_first_poll_stops_silently() {
    let mut c = Coordinator::new();
    let step = c.step(Event::ShutdownChecked(true)).unwrap();
    assert_eq!(step, Step { status: None, action: Action::Halt });
    assert!(c.is_stopped());
    assert_eq!(c.phase(), Phase::Stopped);
}

#[test]
fn cache_hit_is_delivered_without_fetch() {
    let mut c = coordinator_in(Phase::LoadingCache);
    let step = c.step(Event::CacheLoaded(snapshot_of(2))).unwrap();
    assert_eq!(step, Step { status: None, action: Action::Deliver(snapshot_of(2)) });
    assert_eq!(c.phase(), Phase::DeliveringCached);
    let step = c.step(Event::Delivered).unwrap();
    assert_eq!(step, Step { status: Some(StatusUpdate::cached_shown()), action: Action::CheckShutdown });
    assert_eq!(c.phase(), Phase::Polling);
}

#[test]
fn cache_miss_falls_through_to_fetch() {
    let mut c = coordinator_in(Phase::LoadingCache);
    let step = c.step(Event::CacheUnavailable).unwrap();
    assert_eq!(step, Step { status: Some(StatusUpdate::cache_missing()), action: Action::Fetch });
    assert_eq!(c.phase(), Phase::Fetching);
}

#[test]
fn fetched_snapshot_is_delivered_then_reported() {
    let mut c = coordinator_in(Phase::Fetching);
    let step = c.step(Event::Fetched(snapshot_of(6))).unwrap();
    assert_eq!(step, Step { status: None, action: Action::Deliver(snapshot_of(6)) });
    assert_eq!(c.phase(), Phase::DeliveringFetched);
    let step = c.step(Event::Delivered).unwrap();
    assert_eq!(step, Step { status: Some(StatusUpdate::fetch_complete()), action: Action::CheckShutdown });
    assert_eq!(c.phase(), Phase::Polling);
}

#[test]
fn failed_fetch_reports_reason_and_delivers_nothing() {
    let mut c = coordinator_in(Phase::Fetching);
    let step = c.step(Event::FetchFailed("connection reset".to_string())).unwrap();
    assert_eq!(
        step,
        Step { status: Some(StatusUpdate::fetch_failed("connection reset")), action: Action::CheckShutdown }
    );
    assert_eq!(step.status.unwrap().message, "aggregation failed: connection reset");
    assert_eq!(c.phase(), Phase::Polling);
}

#[test]
fn failed_delivery_of_cached_snapshot_is_reported() {
    let mut c = coordinator_in(Phase::DeliveringCached);
    let step = c.step(Event::DeliveryFailed).unwrap();
    assert_eq!(step, Step { status: Some(StatusUpdate::delivery_failed()), action: Action::CheckShutdown });
    assert_eq!(c.phase(), Phase::Polling);
    assert!(!c.is_stopped());
}

#[test]
fn failed_delivery_of_fetched_snapshot_is_reported() {
    let mut c = coordinator_in(Phase::DeliveringFetched);
    let step = c.step(Event::DeliveryFailed).unwrap();
    assert_eq!(step.status.as_ref().unwrap().kind, StatusKind::Failure);
    assert_eq!(step, Step { status: Some(StatusUpdate::delivery_failed()), action: Action::CheckShutdown });
    assert_eq!(c.phase(), Phase::Polling);
}

#[test]
fn later_cycles_wait_for_a_request() {
    let mut c = coordinator_in(Phase::DeliveringCached);
    c.step(Event::Delivered).unwrap();
    let step = c.step(Event::ShutdownChecked(false)).unwrap();
    assert_eq!(step, Step { status: None, action: Action::AwaitRefresh { timeout_millis: 1000 } });
    assert_eq!(c.phase(), Phase::AwaitingRefresh);
}

#[test]
fn timeout_returns_to_the_shutdown_check() {
    let mut c = coordinator_in(Phase::AwaitingRefresh);
    let step = c.step(Event::WaitTimedOut).unwrap();
    assert_eq!(step, Step { status: None, action: Action::CheckShutdown });
    assert_eq!(c.phase(), Phase::Polling);
    let step = c.step(Event::ShutdownChecked(true)).unwrap();
    assert_eq!(step, Step { status: None, action: Action::Halt });
    assert!(c.is_stopped());
}

#[test]
fn request_starts_a_fetch_with_loading() {
    let mut c = coordinator_in(Phase::AwaitingRefresh);
    let step = c.step(Event::RefreshRequested).unwrap();
    assert_eq!(step, Step { status: Some(StatusUpdate::loading()), action: Action::Fetch });
    assert_eq!(c.phase(), Phase::Fetching);
}

#[test]
fn cache_is_read_in_the_first_cycle_only() {
    let mut c = coordinator_in(Phase::AwaitingRefresh);
    let mut actions = Vec::new();
    for e in [
        Event::RefreshRequested,
        Event::FetchFailed("x".to_string()),
        Event::ShutdownChecked(false),
        Event::WaitTimedOut,
        Event::ShutdownChecked(false),
    ] {
        actions.push(c.step(e).unwrap().action);
    }
    assert!(!actions.contains(&Action::LoadCache));
    assert!(!c.is_first_cycle());
}

#[test]
fn stopped_coordinator_refuses_every_event() {
    for e in all_events() {
        let mut c = coordinator_in(Phase::Stopped);
        assert_eq!(c.step(e), Err(ProtocolError::Stopped));
        assert!(c.is_stopped());
    }
}

#[test]
fn unexpected_event_changes_nothing() {
    let mut c = coordinator_in(Phase::LoadingCache);
    assert_eq!(c.step(Event::Delivered), Err(ProtocolError::UnexpectedEvent));
    assert_eq!(c.step(Event::Fetched(snapshot_of(1))), Err(ProtocolError::UnexpectedEvent));
    assert_eq!(c, coordinator_in(Phase::LoadingCache));
    let step = c.step(Event::CacheUnavailable).unwrap();
    assert_eq!(step.action, Action::Fetch);
}

#[test]
fn each_phase_takes_only_its_own_outcomes() {
    let phases = [
        (Phase::Polling, vec![0usize, 1]),
        (Phase::AwaitingRefresh, vec![2, 3]),
        (Phase::LoadingCache, vec![4, 5]),
        (Phase::Fetching, vec![6, 7]),
        (Phase::DeliveringCached, vec![8, 9]),
        (Phase::DeliveringFetched, vec![8, 9]),
        (Phase::Stopped, vec![]),
    ];
    for (phase, taken) in phases {
        for (i, e) in all_events().into_iter().enumerate() {
            let mut c = coordinator_in(phase);
            let r = c.step(e);
            assert_eq!(r.is_ok(), taken.contains(&i));
            if r.is_err() {
                assert_eq!(c, coordinator_in(phase));
            }
        }
    }
}

#[test]
fn requests_during_a_fetch_start_no_second_fetch() {
    let mut c = coordinator_in(Phase::AwaitingRefresh);
    let mut fetches = 0;
    if c.step(Event::RefreshRequested).unwrap().action == Action::Fetch {
        fetches += 1;
    }
    for _ in 0..50 {
        match c.step(Event::RefreshRequested) {
            Ok(step) => {
                if step.action == Action::Fetch {
                    fetches += 1;
                }
            }
            Err(e) => assert_eq!(e, ProtocolError::UnexpectedEvent),
        }
        assert_eq!(c.phase(), Phase::Fetching);
    }
    assert_eq!(fetches, 1);
}

#[test]
fn fetches_never_overlap_on_any_event_order() {
    let mut seed: u32 = 12345;
    let mut c = Coordinator::new();
    let mut started = 0u32;
    let mut finished = 0u32;
    for _ in 0..5000 {
        seed = seed.wrapping_mul(1664525).wrapping_add(1013904223);
        let pick = (seed >> 16) as usize % 10;
        let e = all_events().swap_remove(pick);
        let ends_fetch = matches!(e, Event::Fetched(_) | Event::FetchFailed(_));
        if matches!(e, Event::ShutdownChecked(true)) {
            continue;
        }
        if let Ok(step) = c.step(e) {
            if step.action == Action::Fetch {
                started += 1;
            }
            if ends_fetch {
                finished += 1;
            }
        }
        assert!(started == finished || started == finished + 1);
        assert_eq!(started == finished + 1, c.phase() == Phase::Fetching);
    }
    assert!(started > 10);
}

#[test]
fn shutdown_flag_is_read_again_within_three_events() {
    let scripts: Vec<Vec<Event>> = vec![
        vec![Event::CacheLoaded(snapshot_of(1)), Event::Delivered],
        vec![Event::CacheLoaded(snapshot_of(1)), Event::DeliveryFailed],
        vec![Event::CacheUnavailable, Event::Fetched(snapshot_of(1)), Event::Delivered],
        vec![Event::CacheUnavailable, Event::FetchFailed("x".to_string())],
    ];
    for script in scripts {
        let mut c = coordinator_in(Phase::LoadingCache);
        assert!(script.len() <= 3);
        let mut last = Action::LoadCache;
        for e in script {
            last = c.step(e).unwrap().action;
        }
        assert_eq!(last, Action::CheckShutdown);
        assert_eq!(c.phase(), Phase::Polling);
    }
}

#[test]
fn nothing_is_published_after_shutdown() {
    let mut c = coordinator_in(Phase::AwaitingRefresh);
    c.step(Event::WaitTimedOut).unwrap();
    let step = c.step(Event::ShutdownChecked(true)).unwrap();
    assert!(step.status.is_none());
    assert_eq!(step.action, Action::Halt);
    for e in all_events() {
        assert!(c.step(e).is_err());
    }
}
