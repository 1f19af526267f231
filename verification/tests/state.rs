use alfred::entry::Entry;
use alfred::model::{InputMode, Key, Outcome, Selection};
use alfred::state::{copy_entries, find_by_name, is_at_or_under, AppState};

fn folder(name: &str) -> Entry {
    Entry::folder(name.to_string()).unwrap()
}

fn repository(name: &str) -> Entry {
    Entry::repository(
        name.to_string(),
        "main".to_string(),
        vec!["1.0.0".to_string()],
        vec!["main".to_string(), "dev".to_string()],
    )
    .unwrap()
}

fn state_with(entries: Vec<Entry>) -> AppState {
    AppState::new("/nonexistent/alfred/root".to_string(), entries)
}

fn shown(state: &AppState) -> Vec<String> {
    state.repositories().items().iter().map(|e| e.name().clone()).collect()
}

fn type_text(state: &mut AppState, text: &str) {
    for c in text.chars() {
        assert_eq!(state.handle_key(Key::Char(c)), Outcome::Continue);
    }
}

#[test]
fn initial_state() {
    let state = state_with(vec![folder("bar"), repository("foo")]);
    assert_eq!(state.current_path(), "/nonexistent/alfred/root");
    assert_eq!(shown(&state), vec!["bar", "foo"]);
    assert_eq!(state.scanned().len(), 2);
    assert_eq!(state.repositories().selected(), None);
    assert!(state.branches().is_empty());
    assert!(state.tags().is_empty());
    assert!(state.logs().is_empty());
    assert_eq!(state.selection(), Selection::Repositories);
    assert_eq!(state.input_mode(), InputMode::Normal);
    assert_eq!(state.input(), "");
}

#[test]
fn quit_key_ends_the_application_in_normal_mode_only() {
    let mut state = state_with(vec![folder("bar")]);
    assert_eq!(state.handle_key(Key::Char('q')), Outcome::Quit);
    state.handle_key(Key::Char('/'));
    assert_eq!(state.handle_key(Key::Char('q')), Outcome::Continue);
    assert_eq!(state.input(), "q");
}

#[test]
fn down_on_empty_list_is_a_no_op() {
    let mut state = state_with(Vec::new());
    assert_eq!(state.handle_key(Key::Down), Outcome::Continue);
    assert_eq!(state.repositories().selected(), None);
    assert_eq!(state.handle_key(Key::Up), Outcome::Continue);
    assert_eq!(state.repositories().selected(), None);
    assert_eq!(state.input_mode(), InputMode::Normal);
    assert_eq!(state.selection(), Selection::Repositories);
    assert!(state.branches().is_empty());
    assert!(state.tags().is_empty());
}

#[test]
fn down_and_up_move_among_the_entries() {
    let mut state = state_with(vec![folder("a"), folder("b"), folder("c")]);
    state.handle_key(Key::Down);
    assert_eq!(state.repositories().selected(), Some(0));
    state.handle_key(Key::Down);
    assert_eq!(state.repositories().selected(), Some(1));
    state.handle_key(Key::Up);
    assert_eq!(state.repositories().selected(), Some(0));
    state.handle_key(Key::Up);
    assert_eq!(state.repositories().selected(), Some(2));
    state.handle_key(Key::Down);
    assert_eq!(state.repositories().selected(), Some(0));
}

#[test]
fn left_removes_the_highlight_and_the_details() {
    let mut state = state_with(vec![repository("foo")]);
    state.handle_key(Key::Down);
    state.set_details(vec!["main".to_string()], vec!["1.0.0".to_string()]);
    assert_eq!(state.branches().len(), 1);
    state.handle_key(Key::Left);
    assert_eq!(state.repositories().selected(), None);
    assert!(state.branches().is_empty());
    assert!(state.tags().is_empty());
}

#[test]
fn selection_keys_choose_the_list() {
    let mut state = state_with(vec![folder("a")]);
    state.handle_key(Key::Char('t'));
    assert_eq!(state.selection(), Selection::Tags);
    assert!(state.is_emphasized(Selection::Tags));
    assert!(!state.is_emphasized(Selection::Repositories));
    state.handle_key(Key::Char('b'));
    assert_eq!(state.selection(), Selection::Branches);
    state.handle_key(Key::Char('r'));
    assert_eq!(state.selection(), Selection::Repositories);
}

#[test]
fn navigation_follows_the_selection() {
    let mut state = state_with(vec![repository("foo"), folder("bar")]);
    state.handle_key(Key::Down);
    state.set_details(
        vec!["main".to_string(), "dev".to_string()],
        vec!["1.0.0".to_string(), "1.1.0".to_string()],
    );
    state.handle_key(Key::Char('b'));
    state.handle_key(Key::Down);
    state.handle_key(Key::Down);
    assert_eq!(state.branches().selected(), Some(1));
    assert_eq!(state.tags().selected(), None);
    assert_eq!(state.repositories().selected(), Some(0));
    state.handle_key(Key::Char('t'));
    state.handle_key(Key::Up);
    state.handle_key(Key::Up);
    assert_eq!(state.tags().selected(), Some(1));
    assert_eq!(state.branches().selected(), Some(1));
    assert_eq!(state.branches().items(), &vec!["main".to_string(), "dev".to_string()]);
}

#[test]
fn details_are_set_for_a_repository_only() {
    let mut state = state_with(vec![repository("foo"), folder("bar")]);
    state.set_details(vec!["main".to_string()], vec!["1.0.0".to_string()]);
    assert!(state.branches().is_empty());
    assert!(state.tags().is_empty());
    state.handle_key(Key::Down);
    assert!(state.highlights_repository());
    state.set_details(vec!["main".to_string()], vec!["1.0.0".to_string()]);
    assert_eq!(state.branches().items(), &vec!["main".to_string()]);
    assert_eq!(state.tags().items(), &vec!["1.0.0".to_string()]);
    state.handle_key(Key::Down);
    assert!(!state.highlights_repository());
    assert!(state.branches().is_empty());
    assert!(state.tags().is_empty());
    state.set_details(vec!["main".to_string()], vec!["1.0.0".to_string()]);
    assert!(state.branches().is_empty());
    assert!(state.tags().is_empty());
}

#[test]
fn refresh_without_a_repository_on_disk_leaves_the_panels_empty() {
    let mut state = state_with(vec![repository("foo")]);
    state.handle_key(Key::Down);
    state.set_details(vec!["main".to_string()], vec!["1.0.0".to_string()]);
    state.refresh_details();
    assert!(state.branches().is_empty());
    assert!(state.tags().is_empty());
    assert_eq!(state.repositories().selected(), Some(0));
}

#[test]
fn editing_is_entered_on_a_repository_only() {
    let mut state = state_with(vec![repository("foo"), folder("bar")]);
    state.handle_key(Key::Char(':'));
    assert_eq!(state.input_mode(), InputMode::Normal);
    state.handle_key(Key::Down);
    state.handle_key(Key::Down);
    state.handle_key(Key::Char(':'));
    assert_eq!(state.input_mode(), InputMode::Normal);
    state.handle_key(Key::Up);
    state.handle_key(Key::Char(':'));
    assert_eq!(state.input_mode(), InputMode::Editing);
}

#[test]
fn editing_commits_the_buffer() {
    let mut state = state_with(vec![repository("foo")]);
    state.handle_key(Key::Down);
    state.handle_key(Key::Char(':'));
    type_text(&mut state, "v1x");
    assert_eq!(state.handle_key(Key::Backspace), Outcome::Continue);
    assert_eq!(state.input(), "v1");
    assert_eq!(state.handle_key(Key::Enter), Outcome::ProcessInput("v1".to_string()));
    assert_eq!(state.input_mode(), InputMode::Normal);
    assert_eq!(state.input(), "");
}

#[test]
fn escape_discards_the_buffer() {
    let mut state = state_with(vec![repository("foo")]);
    state.handle_key(Key::Down);
    state.handle_key(Key::Char(':'));
    type_text(&mut state, "abc");
    assert_eq!(state.handle_key(Key::Esc), Outcome::Continue);
    assert_eq!(state.input_mode(), InputMode::Normal);
    assert_eq!(state.input(), "");
    state.handle_key(Key::Char('$'));
    type_text(&mut state, "ls");
    assert_eq!(state.handle_key(Key::Esc), Outcome::Continue);
    assert_eq!(state.input_mode(), InputMode::Normal);
    assert_eq!(state.input(), "");
}

#[test]
fn backspace_on_empty_buffer_is_a_no_op() {
    let mut state = state_with(vec![folder("bar")]);
    state.handle_key(Key::Char('$'));
    assert_eq!(state.handle_key(Key::Backspace), Outcome::Continue);
    assert_eq!(state.input(), "");
    assert_eq!(state.input_mode(), InputMode::Command);
}

#[test]
fn command_commits_the_buffer_as_a_command_line() {
    let mut state = state_with(vec![folder("bar")]);
    state.handle_key(Key::Char('$'));
    assert_eq!(state.input_mode(), InputMode::Command);
    type_text(&mut state, "git status");
    assert_eq!(state.handle_key(Key::Enter), Outcome::RunCommand("git status".to_string()));
    assert_eq!(state.input_mode(), InputMode::Normal);
    assert_eq!(state.input(), "");
}

#[test]
fn command_is_not_entered_from_the_branches() {
    let mut state = state_with(vec![folder("bar")]);
    state.handle_key(Key::Char('b'));
    assert_eq!(state.handle_key(Key::Char('$')), Outcome::Continue);
    assert_eq!(state.input_mode(), InputMode::Normal);
    assert_eq!(state.selection(), Selection::Branches);
    state.handle_key(Key::Char('t'));
    state.handle_key(Key::Char('$'));
    assert_eq!(state.input_mode(), InputMode::Normal);
}

#[test]
fn text_modes_take_normal_mode_keys_as_text() {
    for enter in ['/', '$', ':'] {
        let mut state = state_with(vec![repository("foo")]);
        state.handle_key(Key::Down);
        state.handle_key(Key::Char(enter));
        let mode = state.input_mode();
        assert_ne!(mode, InputMode::Normal);
        type_text(&mut state, "rtbq$:/");
        assert_eq!(state.input(), "rtbq$:/");
        assert_eq!(state.selection(), Selection::Repositories);
        assert_eq!(state.input_mode(), mode);
    }
}

#[test]
fn arrows_do_nothing_in_text_modes() {
    let mut state = state_with(vec![folder("a"), folder("b")]);
    state.handle_key(Key::Down);
    state.handle_key(Key::Char('$'));
    for key in [Key::Down, Key::Up, Key::Left, Key::Right, Key::Other] {
        assert_eq!(state.handle_key(key), Outcome::Continue);
    }
    assert_eq!(state.repositories().selected(), Some(0));
    assert_eq!(state.input(), "");
    assert_eq!(state.input_mode(), InputMode::Command);
}

#[test]
fn unknown_keys_do_nothing_in_normal_mode() {
    let mut state = state_with(vec![folder("a"), folder("b")]);
    state.handle_key(Key::Down);
    for key in [Key::Right, Key::Other, Key::Enter, Key::Esc, Key::Backspace, Key::Char('x')] {
        assert_eq!(state.handle_key(key), Outcome::Continue);
    }
    assert_eq!(state.repositories().selected(), Some(0));
    assert_eq!(state.input(), "");
    assert_eq!(state.input_mode(), InputMode::Normal);
    assert_eq!(state.selection(), Selection::Repositories);
}

#[test]
fn search_filters_after_each_keystroke() {
    let mut state = state_with(vec![folder("foo"), folder("bar"), folder("food")]);
    state.handle_key(Key::Char('/'));
    assert_eq!(state.input_mode(), InputMode::Search);
    state.handle_key(Key::Char('f'));
    assert_eq!(shown(&state), vec!["foo", "food"]);
    state.handle_key(Key::Char('o'));
    assert_eq!(shown(&state), vec!["foo", "food"]);
    state.handle_key(Key::Char('o'));
    assert_eq!(shown(&state), vec!["foo", "food"]);
    assert_eq!(state.input(), "foo");
    state.handle_key(Key::Char('d'));
    assert_eq!(shown(&state), vec!["food"]);
    assert_eq!(state.repositories().selected(), None);
}

#[test]
fn search_backspace_filters_from_the_scan() {
    let mut state = state_with(vec![folder("foo"), folder("bar"), folder("food")]);
    state.handle_key(Key::Char('/'));
    type_text(&mut state, "bazz");
    assert!(shown(&state).is_empty());
    state.handle_key(Key::Backspace);
    state.handle_key(Key::Backspace);
    assert_eq!(shown(&state), vec!["bar"]);
    state.handle_key(Key::Backspace);
    state.handle_key(Key::Backspace);
    assert_eq!(shown(&state), vec!["foo", "bar", "food"]);
    state.handle_key(Key::Backspace);
    assert_eq!(shown(&state), vec!["foo", "bar", "food"]);
    assert_eq!(state.input(), "");
}

#[test]
fn search_resets_the_highlight_and_the_details() {
    let mut state = state_with(vec![repository("foo"), folder("bar")]);
    state.handle_key(Key::Down);
    state.set_details(vec!["main".to_string()], vec!["1.0.0".to_string()]);
    state.handle_key(Key::Char('/'));
    assert_eq!(state.repositories().selected(), Some(0));
    state.handle_key(Key::Char('f'));
    assert_eq!(state.repositories().selected(), None);
    assert!(state.branches().is_empty());
    assert!(state.tags().is_empty());
}

#[test]
fn leaving_search_keeps_the_filtered_entries() {
    let mut state = state_with(vec![folder("foo"), folder("bar"), folder("food")]);
    state.handle_key(Key::Char('/'));
    type_text(&mut state, "foo");
    assert_eq!(state.handle_key(Key::Enter), Outcome::Continue);
    assert_eq!(state.input_mode(), InputMode::Normal);
    assert_eq!(state.input(), "");
    assert_eq!(shown(&state), vec!["foo", "food"]);
    state.handle_key(Key::Char('/'));
    type_text(&mut state, "b");
    assert_eq!(shown(&state), vec!["bar"]);
    assert_eq!(state.handle_key(Key::Esc), Outcome::Continue);
    assert_eq!(state.input_mode(), InputMode::Normal);
    assert_eq!(shown(&state), vec!["bar"]);
}

#[test]
fn entering_search_clears_the_buffer() {
    let mut state = state_with(vec![folder("foo")]);
    state.handle_key(Key::Char('/'));
    type_text(&mut state, "fo");
    state.handle_key(Key::Enter);
    state.handle_key(Key::Char('/'));
    assert_eq!(state.input(), "");
    assert_eq!(state.input_mode(), InputMode::Search);
}

#[test]
fn scan_keeps_the_highlight_on_the_same_name() {
    let mut state = state_with(vec![folder("bar"), repository("foo")]);
    state.handle_key(Key::Down);
    state.handle_key(Key::Down);
    assert_eq!(state.repositories().selected(), Some(1));
    state.apply_scan(vec![folder("abc"), folder("bar"), repository("foo"), folder("zed")]);
    assert_eq!(shown(&state), vec!["abc", "bar", "foo", "zed"]);
    assert_eq!(state.scanned().len(), 4);
    assert_eq!(state.repositories().selected(), Some(2));
    assert_eq!(state.repositories().selected_item().unwrap().name(), "foo");
}

#[test]
fn scan_drops_the_highlight_of_a_removed_entry() {
    let mut state = state_with(vec![repository("foo"), folder("bar")]);
    state.handle_key(Key::Down);
    state.set_details(vec!["main".to_string()], vec!["1.0.0".to_string()]);
    state.apply_scan(vec![folder("bar")]);
    assert_eq!(shown(&state), vec!["bar"]);
    assert_eq!(state.repositories().selected(), None);
    assert!(state.branches().is_empty());
    assert!(state.tags().is_empty());
}

#[test]
fn scan_without_highlight_leaves_none() {
    let mut state = state_with(vec![folder("bar")]);
    state.apply_scan(vec![folder("bar"), folder("foo")]);
    assert_eq!(state.repositories().selected(), None);
    assert_eq!(shown(&state), vec!["bar", "foo"]);
}

#[test]
fn scan_replaces_a_filtered_view() {
    let mut state = state_with(vec![folder("foo"), folder("bar")]);
    state.handle_key(Key::Char('/'));
    type_text(&mut state, "fo");
    assert_eq!(shown(&state), vec!["foo"]);
    state.apply_scan(vec![folder("bar"), folder("baz")]);
    assert_eq!(shown(&state), vec!["bar", "baz"]);
    assert_eq!(state.input_mode(), InputMode::Search);
    assert_eq!(state.input(), "fo");
    state.handle_key(Key::Backspace);
    state.handle_key(Key::Backspace);
    state.handle_key(Key::Char('z'));
    assert_eq!(shown(&state), vec!["baz"]);
}

#[test]
fn log_appends_in_order() {
    let mut state = state_with(Vec::new());
    state.log("first".to_string());
    state.log("second".to_string());
    assert_eq!(state.logs().items(), &vec!["first".to_string(), "second".to_string()]);
    assert_eq!(state.logs().selected(), None);
}

#[test]
fn changes_under_the_root_concern_the_state() {
    let state = AppState::new("/home/me/src".to_string(), Vec::new());
    assert!(state.concerns("/home/me/src"));
    assert!(state.concerns("/home/me/src/foo"));
    assert!(state.concerns("/home/me/src/foo/.git/HEAD"));
    assert!(!state.concerns("/home/me/srcs"));
    assert!(!state.concerns("/home/me"));
    assert!(!state.concerns("/home/you/src/foo"));
    assert!(!state.concerns(""));
}

#[test]
fn at_or_under_handles_a_root_with_a_trailing_slash() {
    assert!(is_at_or_under("/a/b", "/a/"));
    assert!(is_at_or_under("/a/", "/a/"));
    assert!(!is_at_or_under("/a", "/a/"));
    assert!(is_at_or_under("/a", "/"));
    assert!(is_at_or_under("/a", ""));
    assert!(!is_at_or_under("a", ""));
    assert!(is_at_or_under("", ""));
}

#[test]
fn find_by_name_gives_the_first_position() {
    let entries = vec![folder("a"), folder("b"), folder("a")];
    assert_eq!(find_by_name(&entries, &"a".to_string()), Some(0));
    assert_eq!(find_by_name(&entries, &"b".to_string()), Some(1));
    assert_eq!(find_by_name(&entries, &"c".to_string()), None);
    assert_eq!(find_by_name(&Vec::new(), &"a".to_string()), None);
}

#[test]
fn copy_entries_keeps_names_and_order() {
    let entries = vec![folder("b"), repository("a")];
    let copies = copy_entries(&entries);
    assert_eq!(copies.len(), 2);
    assert_eq!(copies[0].name(), "b");
    assert_eq!(copies[1].name(), "a");
    assert!(copies[1].is_repository());
}

#[test]
fn status_line_shows_the_path_or_the_buffer() {
    let mut state = state_with(vec![repository("foo")]);
    assert_eq!(state.status_line(), "/nonexistent/alfred/root");
    state.handle_key(Key::Char('/'));
    assert_eq!(state.status_line(), "/");
    type_text(&mut state, "fo");
    assert_eq!(state.status_line(), "/fo");
    state.handle_key(Key::Esc);
    state.handle_key(Key::Char('$'));
    type_text(&mut state, "ls");
    assert_eq!(state.status_line(), "$ls");
    state.handle_key(Key::Esc);
    state.handle_key(Key::Down);
    state.handle_key(Key::Char(':'));
    type_text(&mut state, "v1");
    assert_eq!(state.status_line(), ":v1");
    state.handle_key(Key::Enter);
    assert_eq!(state.status_line(), "/nonexistent/alfred/root");
}
