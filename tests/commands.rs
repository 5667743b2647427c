use time_tracker::commands::{
    create_activity_log, get_idle_status, get_idle_time, get_timer_state, greet, is_user_idle,
    stop_timer,
};

#[test]
fn greeting() {
    assert_eq!(greet("Ada".to_string()), "Hello, Ada!");
    assert_eq!(greet(String::new()), "Hello, !");
}

#[test]
fn timer_is_inactive() {
    let t = get_timer_state();
    assert!(!t.active);
    assert!(t.title.is_none());
    assert!(t.elapsed_seconds.is_none());
    assert!(stop_timer().is_ok());
}

#[test]
fn idle_queries() {
    assert_eq!(get_idle_time(Ok(12)), Ok(12));
    assert_eq!(
        get_idle_time(Err("x".to_string())),
        Err("Failed to get idle time: x".to_string())
    );
    assert_eq!(is_user_idle(Ok(2)), Ok(false));
    assert_eq!(is_user_idle(Ok(3)), Ok(true));
    assert_eq!(
        is_user_idle(Err("y".to_string())),
        Err("Failed to check idle status: y".to_string())
    );
}

#[test]
fn idle_status() {
    let s = get_idle_status(Ok(5), "2024-05-01T10:00:00+00:00").ok().expect("status");
    assert!(s.is_idle);
    assert_eq!(s.idle_time_seconds, 5);
    assert_eq!(s.last_update, "2024-05-01T10:00:00+00:00");
    assert_eq!(s.session_start, "2024-05-01T10:00:00+00:00");
    let s = get_idle_status(Ok(1), "x").ok().expect("status");
    assert!(!s.is_idle);
    let e = get_idle_status(Err("z".to_string()), "x").err().expect("error");
    assert_eq!(e, "Failed to get idle status: z");
}

#[test]
fn activity_log_entry() {
    let log = create_activity_log(30, true, "2024-05-01T10:00:00+00:00").ok().expect("log");
    assert_eq!(log.idle_time_seconds, 30);
    assert!(log.is_idle);
    assert_eq!(log.session_duration_seconds, 30);
    assert_eq!(log.activity_state, "idle");
    assert_eq!(log.timestamp, "2024-05-01T10:00:00+00:00");
    let log = create_activity_log(0, false, "x").ok().expect("log");
    assert_eq!(log.activity_state, "active");
}
