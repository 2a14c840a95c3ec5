use gacha_stats::status::{StatusKind, StatusUpdate};

#[test]
fn idle_status_has_no_message() {
    let u = StatusUpdate::idle();
    assert_eq!(u.message, "");
    assert_eq!(u.kind, StatusKind::Progress);
}

#[test]
fn loading_is_progress() {
    let u = StatusUpdate::loading();
    assert_eq!(u.message, "loading");
    assert_eq!(u.kind, StatusKind::Progress);
    assert!(!u.is_success());
    assert!(!u.is_failure());
}

#[test]
fn cached_shown_is_success() {
    let u = StatusUpdate::cached_shown();
    assert_eq!(u.message, "showing last cached data");
    assert!(u.is_success());
    assert!(!u.is_failure());
}

#[test]
fn cache_missing_is_failure() {
    let u = StatusUpdate::cache_missing();
    assert_eq!(u.message, "no cache, fetching from source");
    assert!(u.is_failure());
    assert!(!u.is_success());
}

#[test]
fn fetch_complete_is_success() {
    let u = StatusUpdate::fetch_complete();
    assert_eq!(u.message, "fetch complete");
    assert_eq!(u.kind, StatusKind::Success);
}

#[test]
fn fetch_failed_carries_reason() {
    let u = StatusUpdate::fetch_failed("timeout");
    assert_eq!(u.message, "aggregation failed: timeout");
    assert_eq!(u.kind, StatusKind::Failure);
    let e = StatusUpdate::fetch_failed("");
    assert_eq!(e.message, "aggregation failed: ");
}

#[test]
fn delivery_failed_is_failure() {
    let u = StatusUpdate::delivery_failed();
    assert_eq!(u.message, "internal error");
    assert!(u.is_failure());
}

#[test]
fn status_new_and_clone() {
    let u = StatusUpdate::new("hello".to_string(), StatusKind::Success);
    assert_eq!(u.message, "hello");
    assert!(u.is_success());
    assert_eq!(u.clone(), u);
}
