use alfred::entry::Entry;
use alfred::filter::{contains, filter_entries};

fn folders(names: &[&str]) -> Vec<Entry> {
    names.iter().map(|n| Entry::folder(n.to_string()).unwrap()).collect()
}

fn names(entries: &[Entry]) -> Vec<String> {
    entries.iter().map(|e| e.name().clone()).collect()
}

#[test]
fn contains_finds_text_anywhere() {
    assert!(contains("food", "foo"));
    assert!(contains("food", "ood"));
    assert!(contains("food", "oo"));
    assert!(contains("food", "food"));
    assert!(contains("food", "d"));
}

#[test]
fn contains_rejects_absent_text() {
    assert!(!contains("bar", "foo"));
    assert!(!contains("fo", "foo"));
    assert!(!contains("", "a"));
    assert!(!contains("fxoo", "foo"));
    assert!(!contains("aab", "abb"));
}

#[test]
fn contains_is_case_sensitive() {
    assert!(!contains("Foo", "foo"));
    assert!(contains("Foo", "Foo"));
}

#[test]
fn contains_accepts_the_empty_pattern() {
    assert!(contains("foo", ""));
    assert!(contains("", ""));
}

#[test]
fn contains_counts_characters_not_bytes() {
    assert!(contains("caf\u{e9}s", "\u{e9}s"));
    assert!(!contains("caf\u{e9}", "e"));
}

#[test]
fn empty_pattern_keeps_every_entry_in_order() {
    let entries = folders(&["foo", "bar", "food"]);
    let kept = filter_entries(&entries, "");
    assert_eq!(names(&kept), vec!["foo", "bar", "food"]);
}

#[test]
fn filter_keeps_exactly_the_matching_entries() {
    let entries = folders(&["foo", "bar", "food", "of", "xfoo"]);
    let kept = filter_entries(&entries, "foo");
    assert_eq!(names(&kept), vec!["foo", "food", "xfoo"]);
    for entry in &kept {
        assert!(contains(entry.name(), "foo"));
    }
    for entry in &entries {
        let shown = kept.iter().any(|k| k.name() == entry.name());
        assert_eq!(shown, contains(entry.name(), "foo"));
    }
}

#[test]
fn filter_without_match_is_empty() {
    let entries = folders(&["foo", "bar"]);
    assert!(filter_entries(&entries, "zzz").is_empty());
    assert!(filter_entries(&Vec::new(), "a").is_empty());
}

#[test]
fn filter_copies_the_whole_entry() {
    let repo = Entry::repository(
        "foo".to_string(),
        "main".to_string(),
        vec!["1.0.0".to_string()],
        vec!["main".to_string(), "dev".to_string()],
    )
    .unwrap();
    let kept = filter_entries(&vec![repo], "fo");
    assert_eq!(kept.len(), 1);
    assert!(kept[0].is_repository());
    assert_eq!(kept[0].active_branch(), "main");
    assert_eq!(kept[0].tags(), &vec!["1.0.0".to_string()]);
    assert_eq!(kept[0].branches(), &vec!["main".to_string(), "dev".to_string()]);
}
