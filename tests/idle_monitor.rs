use time_tracker::constants::{IDLE_MONITOR_INTERVAL_SECONDS, IDLE_THRESHOLD_SECONDS};
use time_tracker::idle::{classify_idle, is_idle_seconds, ActivityChange, IdleMonitorState};

#[test]
fn classification_uses_threshold() {
    assert_eq!(IDLE_THRESHOLD_SECONDS, 3);
    assert!(!is_idle_seconds(0));
    assert!(!is_idle_seconds(2));
    assert!(is_idle_seconds(3));
    assert!(is_idle_seconds(120));
    assert!(!classify_idle(119, 120));
    assert!(classify_idle(120, 120));
    assert!(classify_idle(u64::MAX, u64::MAX));
}

#[test]
fn edge_triggered_transitions() {
    let mut state = IdleMonitorState::with_threshold(3, 0);
    let samples = [2u64, 2, 5, 5, 5, 2];
    let mut changes = Vec::new();
    let mut statuses = 0;
    for (i, s) in samples.iter().enumerate() {
        let now = (i as u64 + 1) * IDLE_MONITOR_INTERVAL_SECONDS;
        let out = state.tick(*s, now, "t");
        statuses += 1;
        assert_eq!(out.status.idle_time_seconds, *s);
        assert_eq!(out.status.is_idle, *s >= 3);
        if let Some(e) = out.changed {
            changes.push((i + 1, e.activity_state));
        }
    }
    assert_eq!(statuses, 6);
    assert_eq!(
        changes,
        vec![(3, ActivityChange::BecameIdle), (6, ActivityChange::BecameActive)]
    );
}

#[test]
fn session_duration_resets_when_active_again() {
    let mut state = IdleMonitorState::with_threshold(3, 100);
    let a = state.tick(1, 110, "t");
    assert_eq!(a.status.session_duration_seconds, 10);
    let b = state.tick(4, 120, "t");
    assert_eq!(b.status.session_duration_seconds, 20);
    let c = state.tick(5, 130, "t");
    assert_eq!(c.status.session_duration_seconds, 30);
    let d = state.tick(0, 140, "t");
    let change = d.changed.expect("became active");
    assert_eq!(change.activity_state, ActivityChange::BecameActive);
    assert!(!change.is_idle);
    assert_eq!(change.session_duration_seconds, 40);
    assert_eq!(d.status.session_duration_seconds, 0);
    assert!(d.status.session_duration_seconds < IDLE_MONITOR_INTERVAL_SECONDS);
    assert_eq!(state.session_start, 140);
    let e = state.tick(0, 150, "t");
    assert_eq!(e.status.session_duration_seconds, 10);
}

#[test]
fn three_ticks_become_idle_on_third() {
    let mut state = IdleMonitorState::with_threshold(3, 0);
    let first = state.tick(1, 10, "2024-01-01T00:00:10+00:00");
    assert!(first.changed.is_none());
    let second = state.tick(1, 20, "2024-01-01T00:00:20+00:00");
    assert!(second.changed.is_none());
    let third = state.tick(4, 30, "2024-01-01T00:00:30+00:00");
    let e = third.changed.expect("became idle");
    assert_eq!(e.activity_state, ActivityChange::BecameIdle);
    assert_eq!(e.activity_state.label(), "became_idle");
    assert!(e.is_idle);
    assert_eq!(e.idle_time_seconds, 4);
    assert_eq!(e.timestamp, "2024-01-01T00:00:30+00:00");
    assert_eq!(third.status.last_update, "2024-01-01T00:00:30+00:00");
    assert!(state.last_idle_state);
}

#[test]
fn new_monitor_starts_active() {
    let state = IdleMonitorState::new(42);
    assert!(!state.last_idle_state);
    assert_eq!(state.session_start, 42);
    assert_eq!(state.threshold_seconds, IDLE_THRESHOLD_SECONDS);
    assert_eq!(ActivityChange::BecameActive.label(), "became_active");
}

#[test]
fn clock_behind_session_start_reports_zero() {
    let mut state = IdleMonitorState::with_threshold(3, 100);
    let out = state.tick(0, 50, "t");
    assert_eq!(out.status.session_duration_seconds, 0);
}

#[test]
fn failed_sample_skips_tick() {
    let mut state = IdleMonitorState::with_threshold(3, 0);
    let before = state;
    let out = state.observe(Err("no display".to_string()), 10, "t1");
    assert!(out.is_none());
    assert_eq!(state, before);
    let out = state.observe(Ok(7), 20, "t2").expect("tick");
    assert!(out.status.is_idle);
    assert_eq!(out.status.idle_time_seconds, 7);
    assert_eq!(out.status.last_update, "t2");
    let change = out.changed.expect("became idle");
    assert_eq!(change.activity_state, ActivityChange::BecameIdle);
    assert_eq!(change.session_duration_seconds, 20);
    assert_eq!(change.timestamp, "t2");
    assert!(state.last_idle_state);
}
