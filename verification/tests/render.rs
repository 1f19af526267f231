use alfred::entry::Entry;
use alfred::model::Selection;
use alfred::render::{entry_line, list_lines, padding_width, panel_title};
use alfred::schedule::{poll_timeout, tick_due};
use alfred::text::{blanks, starts_with};

#[test]
fn padding_fills_the_line() {
    assert_eq!(padding_width(40, 3, 4), 27);
    assert_eq!(padding_width(14, 3, 4), 1);
    assert_eq!(padding_width(65535, 0, 0), 65529);
}

#[test]
fn padding_is_zero_on_a_narrow_line() {
    assert_eq!(padding_width(13, 3, 4), 0);
    assert_eq!(padding_width(5, 3, 4), 0);
    assert_eq!(padding_width(0, 0, 0), 0);
    assert_eq!(padding_width(10, usize::MAX, usize::MAX), 0);
}

#[test]
fn list_lines_are_reversed() {
    let items = vec!["a".to_string(), "b".to_string(), "c".to_string()];
    assert_eq!(list_lines(&items), vec!["c", "b", "a"]);
    assert!(list_lines(&Vec::new()).is_empty());
}

#[test]
fn folder_line_is_its_name() {
    let entry = Entry::folder("bar".to_string()).unwrap();
    assert_eq!(entry_line(&entry, 40), vec!["bar"]);
}

#[test]
fn repository_line_shows_the_branch_at_the_right() {
    let entry =
        Entry::repository("foo".to_string(), "main".to_string(), Vec::new(), Vec::new()).unwrap();
    assert_eq!(entry_line(&entry, 16), vec!["foo", "   ", "(", "main", ")"]);
    assert_eq!(entry_line(&entry, 4), vec!["foo", "", "(", "main", ")"]);
}

#[test]
fn panel_titles() {
    assert_eq!(panel_title(Selection::Repositories), "Repositories");
    assert_eq!(panel_title(Selection::Branches), "Branches");
    assert_eq!(panel_title(Selection::Tags), "Tags");
}

#[test]
fn blanks_have_the_asked_length() {
    assert_eq!(blanks(0), "");
    assert_eq!(blanks(3), "   ");
}

#[test]
fn poll_timeout_is_what_is_left_of_the_tick() {
    assert_eq!(poll_timeout(250, 100), 150);
    assert_eq!(poll_timeout(250, 250), 0);
    assert_eq!(poll_timeout(250, 900), 0);
    assert_eq!(poll_timeout(u64::MAX, 0), u64::MAX);
}

#[test]
fn tick_is_due_once_the_rate_has_passed() {
    assert!(!tick_due(250, 249));
    assert!(tick_due(250, 250));
    assert!(tick_due(250, 251));
    assert!(tick_due(0, 0));
}

#[test]
fn starts_with_compares_the_beginning() {
    assert!(starts_with("refs/heads/main", "refs/heads/"));
    assert!(starts_with("abc", ""));
    assert!(starts_with("abc", "abc"));
    assert!(starts_with("", ""));
    assert!(!starts_with("ab", "abc"));
    assert!(!starts_with("xabc", "abc"));
    assert!(!starts_with("abd", "abc"));
}
