use time_tracker::notification::{
    channel_configs, notification_payload, notification_title, resolve_notification,
    NotificationData, NotificationImportance, NotificationManager, NotificationSoundType,
};

#[test]
fn error_and_critical_share_route() {
    let e = resolve_notification("ERROR");
    let c = resolve_notification("CRITICAL");
    assert_eq!(e.title_suffix, c.title_suffix);
    assert_eq!(e.channel_id, c.channel_id);
    assert_eq!(e.title_suffix, "Error");
    assert_eq!(e.channel_id, "time_tracker_error");
}

#[test]
fn unknown_type_routes_to_info() {
    let r = resolve_notification("unknown-garbage");
    assert_eq!(r.title_suffix, "Notification");
    assert_eq!(r.channel_id, "time_tracker_info");
    let info = resolve_notification("INFO");
    assert_eq!(info.title_suffix, "Info");
    assert_eq!(info.channel_id, r.channel_id);
    let empty = resolve_notification("");
    assert_eq!(empty.channel_id, "time_tracker_info");
}

#[test]
fn routing_is_case_sensitive() {
    let r = resolve_notification("warning");
    assert_eq!(r.title_suffix, "Notification");
    let w = resolve_notification("WARNING");
    assert_eq!(w.title_suffix, "Warning");
    assert_eq!(w.channel_id, "time_tracker_warning");
    let s = resolve_notification("SUCCESS");
    assert_eq!(s.title_suffix, "Success");
    assert_eq!(s.channel_id, "time_tracker_success");
}

#[test]
fn titles_carry_prefix() {
    assert_eq!(notification_title("WARNING"), "Time Tracker - Warning");
    assert_eq!(notification_title("CRITICAL"), "Time Tracker - Error");
    assert_eq!(notification_title("other"), "Time Tracker - Notification");
}

#[test]
fn payload_for_request() {
    let req = NotificationData {
        title: "t".to_string(),
        body: "b".to_string(),
        notification_type: "WARNING".to_string(),
    };
    let p = notification_payload(&req);
    assert_eq!(p.title, "t");
    assert_eq!(p.body, "b");
    assert_eq!(p.channel_id, "time_tracker_warning");
    assert_eq!(p.notification_type, "WARNING");
}

#[test]
fn channel_id_matches_case() {
    let m = NotificationManager::new();
    assert_eq!(m.get_channel_id("ERROR"), "time_tracker_error");
    assert_eq!(m.get_channel_id("CRITICAL"), "time_tracker_error");
    assert_eq!(m.get_channel_id("WARNING"), "time_tracker_warning");
    assert_eq!(m.get_channel_id("SUCCESS"), "time_tracker_success");
    assert_eq!(m.get_channel_id("INFO"), "time_tracker_info");
    assert_eq!(m.get_channel_id("whatever"), "time_tracker_info");
    assert_eq!(m.get_channel_id("error"), "time_tracker_info");
    assert_eq!(m.get_channel_id("Warning"), "time_tracker_info");
}

#[test]
fn sound_type_parsing() {
    assert_eq!(NotificationSoundType::from("warning"), NotificationSoundType::Warning);
    assert_eq!(NotificationSoundType::from_type_name("Info"), NotificationSoundType::Info);
    assert_eq!(NotificationSoundType::from_type_name("critical"), NotificationSoundType::Critical);
    assert_eq!(NotificationSoundType::from_type_name("nope"), NotificationSoundType::Other);
    assert_eq!(NotificationSoundType::parse_exact("error"), NotificationSoundType::Other);
    assert_eq!(NotificationSoundType::parse_exact("ERROR"), NotificationSoundType::Error);
    assert_eq!(NotificationSoundType::Success.label(), "SUCCESS");
    assert_eq!(NotificationSoundType::Other.label(), "OTHER");
    for k in [
        NotificationSoundType::Info,
        NotificationSoundType::Warning,
        NotificationSoundType::Error,
        NotificationSoundType::Success,
        NotificationSoundType::Critical,
    ] {
        assert_eq!(NotificationSoundType::parse_exact(&k.label()), k);
    }
}

#[test]
fn channels_registered_once() {
    let mut m = NotificationManager::default();
    assert!(!m.is_initialized());
    let first = m.initialize_channels();
    assert!(m.is_initialized());
    assert_eq!(first.len(), 5);
    assert_eq!(first[0].id, "time_tracker_info");
    assert_eq!(first[4].id, "time_tracker_critical");
    assert_eq!(first[4].name, "Time Tracker - Critical");
    assert_eq!(first[2].importance, NotificationImportance::Max);
    assert_eq!(first[1].importance.level(), 4);
    assert_eq!(first[0].sound_name, "notification_sound");
    let second = m.initialize_channels();
    assert!(second.is_empty());
    assert_eq!(channel_configs().len(), 5);
}

#[test]
fn importance_levels() {
    assert_eq!(NotificationImportance::Min.level(), 1);
    assert_eq!(NotificationImportance::Low.level(), 2);
    assert_eq!(NotificationImportance::Default.level(), 3);
    assert_eq!(NotificationImportance::High.level(), 4);
    assert_eq!(NotificationImportance::Max.level(), 5);
}
