use driftguard::detector::{report_page, Change, PageElement};
use driftguard::{detect_changes, ChangeType};

#[test]
fn test_detect_changes_basic() {
    let html = r#"<html><head><title>Test</title></head><body><a href="link">Link</a></body></html>"#;
    let changes = detect_changes(html, "old_hash", "new_hash");

    assert!(!changes.is_empty());

    let title_change = changes.iter().find(|c| c.change_type == ChangeType::Title);
    assert!(title_change.is_some());
}

#[test]
fn test_change_type_serialization() {
    let change_type = ChangeType::Content;
    let serialized = change_type.as_str();
    assert_eq!(serialized, "content");
}

#[test]
fn every_change_type_has_its_label() {
    assert_eq!(ChangeType::Structure.as_str(), "structure");
    assert_eq!(ChangeType::Metadata.as_str(), "metadata");
    assert_eq!(ChangeType::Title.as_str(), "title");
    assert_eq!(ChangeType::Links.as_str(), "links");
    assert_eq!(ChangeType::Images.as_str(), "images");
}

fn summary(changes: &[Change]) -> Vec<(ChangeType, Option<String>, Option<String>, Option<String>)> {
    changes
        .iter()
        .map(|c| (c.change_type, c.old_value.clone(), c.new_value.clone(), c.details.clone()))
        .collect()
}

fn some(s: &str) -> Option<String> {
    Some(s.to_string())
}

#[test]
fn full_page_findings() {
    let html = [
        "<html><head><title>  Shop \n</title>",
        "<meta name=\"description\" content=\"Cheap things\">",
        "<meta name=\"viewport\" content=\"width=device-width\">",
        "<meta name=\"keywords\" content=\"a, b\">",
        "<meta name=\"keywords\">",
        "</head><body><a href=\"/1\">1</a><a href=\"/2\">2</a>",
        "<img src=\"x.png\"><img src=\"y.png\"><img src=\"z.png\"></body></html>",
    ]
    .concat();
    let html = html.as_str();
    let changes = detect_changes(html, "old", "abc123");
    assert_eq!(
        summary(&changes),
        vec![
            (ChangeType::Title, None, some("Shop"), some("Page title detected")),
            (
                ChangeType::Metadata,
                None,
                some("description: Cheap things, keywords: a, b"),
                some("Meta tags detected")
            ),
            (ChangeType::Links, None, some("2"), some("Link count")),
            (ChangeType::Images, None, some("3"), some("Image count")),
            (ChangeType::Content, None, some("abc123"), some("Content hash changed")),
        ]
    );
    for c in &changes {
        assert_eq!(c.id.len(), 36);
    }
    assert_ne!(changes[0].id, changes[1].id);
}

#[test]
fn blank_title_and_no_meta_give_only_counts() {
    let html = "<html><head><title>   </title></head><body><p>x</p></body></html>";
    let changes = detect_changes(html, "", "h");
    assert_eq!(
        summary(&changes),
        vec![
            (ChangeType::Links, None, some("0"), some("Link count")),
            (ChangeType::Images, None, some("0"), some("Image count")),
            (ChangeType::Content, None, some("h"), some("Content hash changed")),
        ]
    );
}

#[test]
fn only_the_first_title_counts() {
    let html = "<html><head><title></title><title>Second</title></head></html>";
    let changes = detect_changes(html, "", "h");
    assert_eq!(changes.len(), 3);
    assert_eq!(changes[0].change_type, ChangeType::Links);
}

fn element(text: &str, attrs: &[(&str, &str)]) -> PageElement {
    PageElement {
        text: text.to_string(),
        attributes: attrs.iter().map(|(k, v)| (k.to_string(), v.to_string())).collect(),
    }
}

#[test]
fn report_from_given_elements() {
    let titles = vec![element("\u{2003}Hello world\t", &[])];
    let metas = vec![
        element("", &[("content", "kw"), ("name", "keywords")]),
        element("", &[("name", "Description"), ("content", "ignored")]),
    ];
    let ids: Vec<String> = (0..5).map(|i| format!("id{}", i)).collect();
    let changes = report_page(&titles, &metas, 12, 0, "hash", &ids);
    assert_eq!(
        summary(&changes),
        vec![
            (ChangeType::Title, None, some("Hello world"), some("Page title detected")),
            (ChangeType::Metadata, None, some("keywords: kw"), some("Meta tags detected")),
            (ChangeType::Links, None, some("12"), some("Link count")),
            (ChangeType::Images, None, some("0"), some("Image count")),
            (ChangeType::Content, None, some("hash"), some("Content hash changed")),
        ]
    );
    let got: Vec<&str> = changes.iter().map(|c| c.id.as_str()).collect();
    assert_eq!(got, vec!["id0", "id1", "id2", "id3", "id4"]);
}

#[test]
fn report_takes_ids_in_order_when_fewer_findings() {
    let ids: Vec<String> = (0..5).map(|i| format!("id{}", i)).collect();
    let changes = report_page(&vec![], &vec![], 1, 2, "h", &ids);
    let got: Vec<&str> = changes.iter().map(|c| c.id.as_str()).collect();
    assert_eq!(got, vec!["id0", "id1", "id2"]);
}
