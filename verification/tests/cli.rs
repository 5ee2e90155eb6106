use driftguard::cli::{
    added_line, api_address_line, change_lines, checking_line, list_lines, removed_line,
    serving_line, size_line, status_lines,
};
use driftguard::{Change, Monitor};

fn monitor(id: &str, url: &str, name: Option<&str>) -> Monitor {
    let mut m = Monitor::create(id.to_string(), url.to_string(), 3600, "t".to_string());
    m.name = name.map(|s| s.to_string());
    m
}

#[test]
fn list_of_no_monitors() {
    assert_eq!(
        list_lines(&vec![]),
        vec!["No monitors configured. Use 'driftguard add <url>' to add one.".to_string()]
    );
}

#[test]
fn list_of_monitors() {
    let ms = vec![monitor("0123456789ab", "https://a", Some("A")), monitor("xyz", "https://b", None)];
    assert_eq!(
        list_lines(&ms),
        vec![
            "📋 Monitors:\n".to_string(),
            "  [01234567] https://a".to_string(),
            "       Name: A".to_string(),
            "       Interval: 3600s | Enabled: true\n".to_string(),
            "  [xyz] https://b".to_string(),
            "       Interval: 3600s | Enabled: true\n".to_string(),
        ]
    );
}

#[test]
fn status_of_monitors() {
    let mut m = monitor("i", "https://a", None);
    m.last_status = Some("200".to_string());
    let ms = vec![m, monitor("j", "https://b", None)];
    assert_eq!(
        status_lines(&ms),
        vec![
            "📊 Monitor Status:\n".to_string(),
            "  https://a → 200".to_string(),
            "     Last check: never | Next: in 3600s\n".to_string(),
            "  https://b → never".to_string(),
            "     Last check: never | Next: in 3600s\n".to_string(),
        ]
    );
    assert_eq!(status_lines(&vec![]), vec!["📊 Monitor Status:\n".to_string()]);
}

fn change(i: usize, details: Option<&str>) -> Change {
    Change {
        id: format!("c{}", i),
        monitor_id: "m".to_string(),
        change_type: "title".to_string(),
        old_value: None,
        new_value: None,
        details: details.map(|s| s.to_string()),
        detected_at: format!("t{}", i),
    }
}

#[test]
fn changes_are_capped_at_twenty() {
    assert_eq!(change_lines(&vec![]), vec!["No changes detected yet.".to_string()]);
    let cs: Vec<Change> = (0..25).map(|i| change(i, None)).collect();
    let lines = change_lines(&cs);
    assert_eq!(lines.len(), 21);
    assert_eq!(lines[0], "📝 Recent Changes:\n");
    assert_eq!(lines[1], "  [t0] title");
    assert_eq!(lines[20], "  [t19] title");
    let lines = change_lines(&vec![change(1, Some("Page title detected"))]);
    assert_eq!(lines[2], "       Page title detected");
}

#[test]
fn single_lines() {
    assert_eq!(added_line("https://a", "id1"), "✅ Added monitor: https://a (ID: id1)");
    assert_eq!(removed_line("id1"), "✅ Removed monitor: id1");
    assert_eq!(checking_line("https://a"), "🔍 Checking https://a...");
    assert_eq!(size_line(Some(1024)), "   Size: 1024 bytes");
    assert_eq!(size_line(None), "   Size: 0 bytes");
    assert_eq!(serving_line(8080), "🚀 Starting API server on port 8080...");
    assert_eq!(api_address_line(80), "   API available at http://localhost:80/api");
}
