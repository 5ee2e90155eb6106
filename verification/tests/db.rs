use driftguard::db::MonitorRow;
use driftguard::Monitor;

#[test]
fn test_monitor_creation() {
    let monitor = Monitor::new("https://example.com".to_string(), 3600);
    assert!(!monitor.id.is_empty());
    assert_eq!(monitor.url, "https://example.com");
    assert_eq!(monitor.interval_seconds, 3600);
    assert!(monitor.enabled);
}

#[test]
fn new_monitor_has_fresh_hyphenated_id() {
    let a = Monitor::new("https://a.example".to_string(), 60);
    let b = Monitor::new("https://a.example".to_string(), 60);
    assert_eq!(a.id.len(), 36);
    assert_eq!(a.id.as_bytes()[8], b'-');
    assert_ne!(a.id, b.id);
    assert!(a.name.is_none());
    assert!(a.last_check.is_none());
    assert!(a.last_status.is_none());
    assert!(!a.created_at.is_empty());
}

#[test]
fn created_monitor_has_given_identity() {
    let m = Monitor::create("m1".to_string(), "u".to_string(), 5, "t0".to_string());
    assert_eq!(m.id, "m1");
    assert_eq!(m.created_at, "t0");
    assert!(m.enabled);
}

#[test]
fn rows_round_trip() {
    let mut m = Monitor::create("m1".to_string(), "https://x".to_string(), 30, "t".to_string());
    m.name = Some("x".to_string());
    m.enabled = false;
    let row = m.to_row();
    assert_eq!(row.enabled, 0);
    let back = Monitor::from_row(row);
    assert_eq!(back.name.as_deref(), Some("x"));
    assert!(!back.enabled);
    m.enabled = true;
    assert_eq!(m.to_row().enabled, 1);
}

#[test]
fn any_nonzero_flag_reads_as_enabled() {
    let row = MonitorRow {
        id: "i".to_string(),
        url: "u".to_string(),
        name: None,
        interval_seconds: 1,
        enabled: -3,
        last_check: Some("c".to_string()),
        last_status: Some("200".to_string()),
        created_at: "t".to_string(),
    };
    let m = Monitor::from_row(row);
    assert!(m.enabled);
    assert_eq!(m.last_status.as_deref(), Some("200"));
}

#[test]
fn new_monitor_is_random_uuid_and_utc_time() {
    let m = Monitor::new("https://a.example".to_string(), 60);
    let id: Vec<char> = m.id.chars().collect();
    assert_eq!(id[14], '4');
    assert!(matches!(id[19], '8' | '9' | 'a' | 'b'));
    assert!(m.created_at.len() >= 25);
    assert!(m.created_at.ends_with("+00:00"));
    assert_eq!(m.created_at.as_bytes()[10], b'T');
}

#[test]
fn named_monitor_carries_its_name() {
    let m = Monitor::new_named("https://a.example".to_string(), 120, Some("Shop".to_string()));
    assert_eq!(m.name.as_deref(), Some("Shop"));
    assert_eq!(m.url, "https://a.example");
    assert_eq!(m.interval_seconds, 120);
    assert!(m.enabled);
    let m = Monitor::new_named("https://a.example".to_string(), 120, None);
    assert!(m.name.is_none());
}
