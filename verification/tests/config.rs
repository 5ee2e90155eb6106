use driftguard::config::parse_port;
use driftguard::Config;

#[test]
fn defaults_when_unset() {
    let c = Config::from_vars(None, None, None, None, None);
    assert_eq!(c.database_url, "./data/driftguard.db");
    assert_eq!(c.screenshot_dir, "./data/screenshots");
    assert_eq!(c.port, 8080);
    assert_eq!(c.log_level, "info");
    assert_eq!(c.webhook_url, None);
}

#[test]
fn values_when_set() {
    let c = Config::from_vars(
        Some("/db".to_string()),
        Some("/shots".to_string()),
        Some("9000".to_string()),
        Some("debug".to_string()),
        Some("http://hook".to_string()),
    );
    assert_eq!(c.database_url, "/db");
    assert_eq!(c.screenshot_dir, "/shots");
    assert_eq!(c.port, 9000);
    assert_eq!(c.log_level, "debug");
    assert_eq!(c.webhook_url.as_deref(), Some("http://hook"));
}

#[test]
fn bad_port_falls_back() {
    let c = Config::from_vars(None, None, Some("eighty".to_string()), None, None);
    assert_eq!(c.port, 8080);
}

#[test]
fn port_parsing_matches_std() {
    for s in ["0", "80", "+80", "0080", "65535", "65536", "", "+", "-", "-1", "8o", " 80", "99999999999"] {
        assert_eq!(parse_port(s), s.parse::<u16>().ok(), "input {:?}", s);
    }
}
