use driftguard::screenshot::placeholder_text;

#[test]
fn placeholder_names_url_and_path() {
    let text = placeholder_text("https://example.com", "/tmp/test_screenshot.txt");
    assert_eq!(
        text,
        "Screenshot placeholder for https://example.com\nIn production, use puppeteer/playwright for actual screenshots.\nPath: /tmp/test_screenshot.txt"
    );
}
