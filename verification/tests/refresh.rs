use kube_tui::refresh::{
    RefreshClass, RefreshScheduler, RefreshTimer, FORCE_REFRESH_BACKDATE_MS, GENERAL_INTERVAL_MS,
    LOGS_INTERVAL_MS,
};

#[test]
fn timer_is_due_from_exactly_one_interval_on() {
    let t = RefreshTimer::new(true, 5000, 1000);
    assert!(!t.should_refresh(1000));
    assert!(!t.should_refresh(5999));
    assert!(t.should_refresh(6000));
    assert!(t.should_refresh(6001));
    assert!(t.should_refresh(u64::MAX));
}

#[test]
fn disabled_timer_is_never_due() {
    let t = RefreshTimer::new(false, 5000, 0);
    assert!(!t.should_refresh(0));
    assert!(!t.should_refresh(1_000_000));
}

#[test]
fn clock_before_last_fetch_is_not_due() {
    let t = RefreshTimer::new(true, 0, 100);
    assert!(!t.should_refresh(99));
    assert!(t.should_refresh(100));
}

#[test]
fn toggle_never_touches_last_fetch() {
    let mut t = RefreshTimer::new(true, 5000, 1234);
    t.toggle();
    assert_eq!(t, RefreshTimer { enabled: false, interval: 5000, last_fetch: 1234 });
    // Re-enabling forces no fetch unless the interval has passed.
    t.toggle();
    assert_eq!(t, RefreshTimer { enabled: true, interval: 5000, last_fetch: 1234 });
    assert!(!t.should_refresh(2000));
    assert!(t.should_refresh(6234));
}

#[test]
fn mark_refreshed_restarts_the_interval() {
    let mut t = RefreshTimer::new(true, 2000, 0);
    assert!(t.should_refresh(2000));
    t.mark_refreshed(2000);
    assert_eq!(t.last_fetch, 2000);
    assert!(!t.should_refresh(3999));
    assert!(t.should_refresh(4000));
}

#[test]
fn force_backdates_by_ten_seconds_when_the_clock_allows() {
    assert_eq!(FORCE_REFRESH_BACKDATE_MS, 10_000);
    let mut t = RefreshTimer::new(true, 5000, 50_000);
    t.force(50_100);
    assert_eq!(t.last_fetch, 40_100);
    assert!(t.should_refresh(50_100));
    let mut early = RefreshTimer::new(true, 5000, 0);
    early.force(9_999);
    assert_eq!(early.last_fetch, 9_999);
    assert!(!early.should_refresh(9_999));
    early.force(10_000);
    assert_eq!(early.last_fetch, 0);
}

#[test]
fn scheduler_starts_with_lists_and_logs_enabled() {
    let s = RefreshScheduler::new(77);
    assert_eq!(s.general, RefreshTimer { enabled: true, interval: GENERAL_INTERVAL_MS, last_fetch: 77 });
    assert_eq!(s.logs, RefreshTimer { enabled: true, interval: LOGS_INTERVAL_MS, last_fetch: 77 });
    assert_eq!(s.describe, RefreshTimer { enabled: false, interval: 5000, last_fetch: 77 });
    assert_eq!(s.yaml, RefreshTimer { enabled: false, interval: 5000, last_fetch: 77 });
    assert_eq!(GENERAL_INTERVAL_MS, 5000);
    assert_eq!(LOGS_INTERVAL_MS, 2000);
}

#[test]
fn classes_are_independent() {
    let mut s = RefreshScheduler::new(0);
    assert!(s.should_refresh(RefreshClass::Logs, 2000));
    assert!(!s.should_refresh(RefreshClass::General, 2000));
    s.mark_refreshed(RefreshClass::Logs, 2000);
    assert_eq!(s.logs.last_fetch, 2000);
    assert_eq!(s.general.last_fetch, 0);
    assert!(s.should_refresh(RefreshClass::General, 5000));
    s.toggle(RefreshClass::General);
    assert!(!s.should_refresh(RefreshClass::General, 5000));
    assert!(s.should_refresh(RefreshClass::Logs, 4000));
    s.toggle(RefreshClass::Describe);
    assert!(s.describe.enabled);
    assert!(s.should_refresh(RefreshClass::Describe, 5000));
    assert!(!s.should_refresh(RefreshClass::Yaml, 5000));
    s.force(RefreshClass::Yaml, 20_000);
    assert_eq!(s.yaml.last_fetch, 10_000);
    assert_eq!(s.timer(RefreshClass::Yaml).last_fetch, 10_000);
}
