use gluxe::dev::{debounce_wait, reload_start, ReloadNext, ReloadStart, ReloadTracker, DEBOUNCE_MS};

#[test]
fn tracker_recognises_the_installed_bundle() {
    let mut t = ReloadTracker::new();
    assert!(!t.is_last_loaded("assets/index.js", 1));
    t.record_loaded("assets/index.js", b"bundle");
    let hash = t.last_loaded.as_ref().unwrap().1;
    assert!(t.is_last_loaded("assets/index.js", hash));
    assert!(!t.is_last_loaded("assets/other.js", hash));
    assert!(!t.is_last_loaded("assets/index.js", hash.wrapping_add(1)));
}

#[test]
fn same_bytes_are_unchanged_and_new_bytes_evaluate() {
    let mut t = ReloadTracker::new();
    t.record_loaded("a.js", b"v1");
    assert_eq!(t.reload_next(Some(("a.js", b"v1")), 0), ReloadNext::Unchanged);
    assert_eq!(t.reload_next(Some(("a.js", b"v2")), 0), ReloadNext::Evaluate);
    assert_eq!(t.reload_next(Some(("b.js", b"v1")), 0), ReloadNext::Evaluate);
    assert_eq!(t.reload_next(Some(("a.js", b"v2")), 3), ReloadNext::Retry(50));
    assert_eq!(t.reload_next(None, 0), ReloadNext::Retry(200));
}

#[test]
fn decide_after_read_uses_the_given_hash() {
    let mut t = ReloadTracker::new();
    t.last_loaded = Some(("e.js".to_string(), 42));
    assert_eq!(t.decide_after_read(Some(("e.js", 42)), 5), ReloadNext::Unchanged);
    assert_eq!(t.decide_after_read(Some(("e.js", 43)), 0), ReloadNext::Evaluate);
}

#[test]
fn debounce_waits_for_the_rest_of_the_quiet_period() {
    assert_eq!(DEBOUNCE_MS, 150);
    assert_eq!(debounce_wait(1000, 1000), Some(160));
    assert_eq!(debounce_wait(1100, 1000), Some(60));
    assert_eq!(debounce_wait(1149, 1000), Some(11));
    assert_eq!(debounce_wait(1150, 1000), None);
    // A clock that went backwards counts as no time passed.
    assert_eq!(debounce_wait(900, 1000), Some(160));
}

#[test]
fn reload_start_decisions() {
    assert_eq!(reload_start(false, true, 5000, 0), ReloadStart::Idle);
    assert_eq!(reload_start(true, false, 5000, 0), ReloadStart::Disable);
    assert_eq!(reload_start(true, true, 1100, 1000), ReloadStart::Wait(60));
    assert_eq!(reload_start(true, true, 5000, 0), ReloadStart::Load);
}
