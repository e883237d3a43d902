use playsync::youtube::{PageCollector, PlaylistInfo, PlaylistItem};

fn item(video_id: &str, title: &str) -> PlaylistItem {
    PlaylistItem { video_id: video_id.to_string(), title: title.to_string() }
}

#[test]
fn missing_playlist_has_no_info() {
    assert!(PlaylistInfo::from_titles(Vec::new()).is_none());
}

#[test]
fn info_takes_the_first_title() {
    let info = PlaylistInfo::from_titles(vec!["Mix".to_string(), "Other".to_string()])
        .expect("playlist exists");
    assert_eq!(info.title, "Mix");
}

#[test]
fn collector_concatenates_pages_in_order() {
    let mut collector = PageCollector::new();
    assert!(!collector.finished());
    collector.push_page(vec![item("a", "ta"), item("b", "tb")], true);
    assert!(!collector.finished());
    collector.push_page(vec![item("c", "tc")], false);
    assert!(collector.finished());
    let items = collector.into_items();
    let got: Vec<String> = items.iter().map(|v| v.video_id.clone()).collect();
    assert_eq!(got, vec!["a".to_string(), "b".to_string(), "c".to_string()]);
    assert_eq!(items[2].title, "tc");
}

#[test]
fn collector_single_empty_page() {
    let mut collector = PageCollector::new();
    collector.push_page(Vec::new(), false);
    assert!(collector.finished());
    assert!(collector.into_items().is_empty());
}

#[test]
fn item_clone_keeps_both_fields() {
    let v = item("v9", "a title");
    let w = v.clone();
    assert_eq!(w.video_id, "v9");
    assert_eq!(w.title, "a title");
}
