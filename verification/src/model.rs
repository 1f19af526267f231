//! The application state as plain values, and its transitions as functions
//! on them: what a key does in each input mode, how the detail panels follow
//! the highlighted entry, and how a new scan is merged in.

use vstd::prelude::*;
use crate::entry::EntryView;
use crate::filter::{lemma_matching_empty_pattern, matching};
use crate::list::{after_next, after_previous};

verus! {

/// The list that Up and Down move in.
#[derive(Clone, Copy, Debug, PartialEq, Eq, Structural)]
pub enum Selection {
    Repositories,
    Branches,
    Tags,
}

/// The sub-mode that decides where a key goes.
#[derive(Clone, Copy, Debug, PartialEq, Eq, Structural)]
pub enum InputMode {
    Normal,
    Editing,
    Search,
    Command,
}

/// A key as the state machine sees it.
#[derive(Clone, Copy, Debug, PartialEq, Eq, Structural)]
pub enum Key {
    Char(char),
    Backspace,
    Enter,
    Esc,
    Left,
    Right,
    Up,
    Down,
    Other,
}

/// What the event loop has to do after a key.
#[derive(Debug, PartialEq, Eq)]
pub enum Outcome {
    /// Nothing: go on with the next event.
    Continue,
    /// Leave the application.
    Quit,
    /// Hand the committed text to the action on the highlighted repository.
    ProcessInput(String),
    /// Run the committed text as a command line in the current directory.
    RunCommand(String),
}

/// The application state as plain values.
pub struct StateView {
    pub current_path: Seq<char>,
    /// The entries of the last scan, unfiltered.
    pub scanned: Seq<EntryView>,
    /// The entries that are shown.
    pub repositories: Seq<EntryView>,
    pub highlighted: Option<nat>,
    pub branches: Seq<String>,
    pub highlighted_branch: Option<nat>,
    pub tags: Seq<String>,
    pub highlighted_tag: Option<nat>,
    pub logs: Seq<String>,
    pub highlighted_log: Option<nat>,
    pub selection: Selection,
    pub input_mode: InputMode,
    pub input: Seq<char>,
}

/// Whether `position` is nothing or a position in a list of `len` items.
pub open spec fn within(position: Option<nat>, len: nat) -> bool {
    match position {
        Some(i) => i < len,
        None => true,
    }
}

/// Whether a repository is highlighted among the shown entries.
pub open spec fn highlights_repository(s: StateView) -> bool {
    match s.highlighted {
        Some(i) => i < s.repositories.len() && s.repositories[i as int].is_repository,
        None => false,
    }
}

/// What holds of every state: highlights name items, the buffer is empty
/// outside the text modes, and the detail panels are empty unless a
/// repository is highlighted.
pub open spec fn consistent(s: StateView) -> bool {
    &&& within(s.highlighted, s.repositories.len())
    &&& within(s.highlighted_branch, s.branches.len())
    &&& within(s.highlighted_tag, s.tags.len())
    &&& within(s.highlighted_log, s.logs.len())
    &&& s.input_mode == InputMode::Normal ==> s.input.len() == 0
    &&& !highlights_repository(s) ==> s.branches.len() == 0 && s.tags.len() == 0
}

/// The state with both detail panels empty.
pub open spec fn without_details(s: StateView) -> StateView {
    StateView {
        branches: Seq::empty(),
        highlighted_branch: None,
        tags: Seq::empty(),
        highlighted_tag: None,
        ..s
    }
}

/// The state with the given contents in the detail panels and nothing
/// highlighted in them.
pub open spec fn with_details(s: StateView, branches: Seq<String>, tags: Seq<String>) -> StateView {
    StateView { branches, highlighted_branch: None, tags, highlighted_tag: None, ..s }
}

/// The state after the highlight among the shown entries moved: the detail
/// panels are empty until they are listed again.
pub open spec fn rehighlighted(s: StateView, highlighted: Option<nat>) -> StateView {
    without_details(StateView { highlighted, ..s })
}

/// The state after the buffer changed in search mode: the shown entries are
/// those of the last scan whose name contains the buffer, and nothing is
/// highlighted.
pub open spec fn refiltered(s: StateView, input: Seq<char>) -> StateView {
    without_details(
        StateView { input, repositories: matching(s.scanned, input), highlighted: None, ..s },
    )
}

/// The buffer without its last character; the empty buffer stays empty.
pub open spec fn shortened(input: Seq<char>) -> Seq<char> {
    if input.len() == 0 {
        input
    } else {
        input.drop_last()
    }
}

/// The state back in normal mode with an empty buffer.
pub open spec fn back_to_normal(s: StateView) -> StateView {
    StateView { input_mode: InputMode::Normal, input: Seq::empty(), ..s }
}

/// The state after Up or Down in normal mode, `forward` for Down.
pub open spec fn navigated(s: StateView, forward: bool) -> StateView {
    match s.selection {
        Selection::Repositories => rehighlighted(
            s,
            if forward {
                after_next(s.repositories.len(), s.highlighted)
            } else {
                after_previous(s.repositories.len(), s.highlighted)
            },
        ),
        Selection::Branches => StateView {
            highlighted_branch: if forward {
                after_next(s.branches.len(), s.highlighted_branch)
            } else {
                after_previous(s.branches.len(), s.highlighted_branch)
            },
            ..s
        },
        Selection::Tags => StateView {
            highlighted_tag: if forward {
                after_next(s.tags.len(), s.highlighted_tag)
            } else {
                after_previous(s.tags.len(), s.highlighted_tag)
            },
            ..s
        },
    }
}

/// The state after a character key in normal mode.
pub open spec fn normal_char(s: StateView, c: char) -> StateView {
    if c == 'r' {
        StateView { selection: Selection::Repositories, ..s }
    } else if c == 't' {
        StateView { selection: Selection::Tags, ..s }
    } else if c == 'b' {
        StateView { selection: Selection::Branches, ..s }
    } else if c == ':' {
        if highlights_repository(s) {
            StateView { input_mode: InputMode::Editing, ..s }
        } else {
            s
        }
    } else if c == '/' {
        StateView { input_mode: InputMode::Search, input: Seq::empty(), ..s }
    } else if c == '$' {
        if s.selection == Selection::Repositories {
            StateView { input_mode: InputMode::Command, ..s }
        } else {
            s
        }
    } else {
        s
    }
}

/// The state after `key`, with the detail panels left empty where the key
/// moved the highlight among the shown entries. Every mode has an answer to
/// every key; a key that the mode does not know changes nothing.
pub open spec fn step(s: StateView, key: Key) -> StateView {
    match s.input_mode {
        InputMode::Normal => match key {
            Key::Left => rehighlighted(s, None),
            Key::Down => navigated(s, true),
            Key::Up => navigated(s, false),
            Key::Char(c) => normal_char(s, c),
            _ => s,
        },
        InputMode::Editing | InputMode::Command => match key {
            Key::Char(c) => StateView { input: s.input.push(c), ..s },
            Key::Backspace => StateView { input: shortened(s.input), ..s },
            Key::Enter | Key::Esc => back_to_normal(s),
            _ => s,
        },
        InputMode::Search => match key {
            Key::Char(c) => refiltered(s, s.input.push(c)),
            Key::Backspace => refiltered(s, shortened(s.input)),
            Key::Enter | Key::Esc => back_to_normal(s),
            _ => s,
        },
    }
}

/// Whether the key makes the state list the branches and tags of a
/// repository anew: Up or Down among the shown entries in normal mode, landing
/// on a repository.
pub open spec fn lists_details(s: StateView, key: Key) -> bool {
    &&& s.input_mode == InputMode::Normal
    &&& s.selection == Selection::Repositories
    &&& key == Key::Down || key == Key::Up
    &&& highlights_repository(step(s, key))
}

/// Whether `outcome` is what the event loop is told after `key` in state `s`.
pub open spec fn outcome_of(s: StateView, key: Key, outcome: Outcome) -> bool {
    match outcome {
        Outcome::Quit => s.input_mode == InputMode::Normal && key == Key::Char('q'),
        Outcome::ProcessInput(text) => s.input_mode == InputMode::Editing && key == Key::Enter
            && text@ == s.input,
        Outcome::RunCommand(text) => s.input_mode == InputMode::Command && key == Key::Enter
            && text@ == s.input,
        Outcome::Continue => {
            &&& !(s.input_mode == InputMode::Normal && key == Key::Char('q'))
            &&& !(s.input_mode == InputMode::Editing && key == Key::Enter)
            &&& !(s.input_mode == InputMode::Command && key == Key::Enter)
        },
    }
}

/// The position of the first entry called `name`, if there is one.
pub open spec fn first_named(entries: Seq<EntryView>, name: Seq<char>) -> Option<nat>
    decreases entries.len(),
{
    if entries.len() == 0 {
        None
    } else {
        match first_named(entries.drop_last(), name) {
            Some(i) => Some(i),
            None => if entries.last().name == name {
                Some((entries.len() - 1) as nat)
            } else {
                None
            },
        }
    }
}

/// The state after a new scan of the current directory, with the detail
/// panels left empty: the scan replaces the shown entries, and the highlight
/// follows the name of the entry that had it, or is gone with it.
pub open spec fn rescanned(s: StateView, scanned: Seq<EntryView>) -> StateView {
    without_details(
        StateView {
            scanned,
            repositories: scanned,
            highlighted: match s.highlighted {
                Some(i) => if i < s.repositories.len() {
                    first_named(scanned, s.repositories[i as int].name)
                } else {
                    None
                },
                None => None,
            },
            ..s
        },
    )
}

/// The bottom line of the frame: the current directory in normal mode, and
/// in a text mode the key that entered the mode before the buffer.
pub open spec fn status_text(s: StateView) -> Seq<char> {
    match s.input_mode {
        InputMode::Normal => s.current_path,
        InputMode::Editing => seq![':'] + s.input,
        InputMode::Search => seq!['/'] + s.input,
        InputMode::Command => seq!['$'] + s.input,
    }
}

/// Whether `path` is `root` or lies under it.
pub open spec fn at_or_under(path: Seq<char>, root: Seq<char>) -> bool {
    &&& root.is_prefix_of(path)
    &&& {
        ||| path.len() == root.len()
        ||| path[root.len() as int] == '/'
        ||| (root.len() > 0 && root.last() == '/')
    }
}

/// A step from a consistent state leaves the state consistent, and so does
/// any listing of branches and tags for a highlighted repository.
pub proof fn lemma_step_consistent(s: StateView, key: Key, branches: Seq<String>, tags: Seq<String>)
    requires
        consistent(s),
    ensures
        consistent(step(s, key)),
        highlights_repository(step(s, key)) ==> consistent(
            with_details(step(s, key), branches, tags),
        ),
{
}

/// In the three text modes a character key goes into the buffer and nowhere
/// else: the list that navigation moves in, the mode, the highlights and the
/// log stay as they are, whatever the character means in normal mode.
pub proof fn lemma_text_modes_take_characters(s: StateView, c: char)
    requires
        s.input_mode != InputMode::Normal,
    ensures
        step(s, Key::Char(c)).input == s.input.push(c),
        step(s, Key::Char(c)).selection == s.selection,
        step(s, Key::Char(c)).input_mode == s.input_mode,
        step(s, Key::Char(c)).logs == s.logs,
        step(s, Key::Char(c)).scanned == s.scanned,
        s.input_mode != InputMode::Search ==> step(s, Key::Char(c)) == (StateView {
            input: s.input.push(c),
            ..s
        }),
{
}

/// Down and Up change nothing where navigation moves among the shown
/// entries and there is none.
pub proof fn lemma_navigation_in_empty_list(s: StateView)
    requires
        consistent(s),
        s.input_mode == InputMode::Normal,
        s.selection == Selection::Repositories,
        s.repositories.len() == 0,
    ensures
        step(s, Key::Down) == s,
        step(s, Key::Up) == s,
        !lists_details(s, Key::Down),
        !lists_details(s, Key::Up),
{
    assert(s.branches =~= Seq::empty());
    assert(s.tags =~= Seq::empty());
}

/// The command mode is entered from the shown entries only: elsewhere `$`
/// changes nothing.
pub proof fn lemma_command_from_repositories_only(s: StateView)
    requires
        s.input_mode == InputMode::Normal,
    ensures
        s.selection != Selection::Repositories ==> step(s, Key::Char('$')) == s,
        s.selection == Selection::Repositories ==> step(s, Key::Char('$')) == (StateView {
            input_mode: InputMode::Command,
            ..s
        }),
{
}

/// The editing mode is entered on a highlighted repository only.
pub proof fn lemma_editing_on_repository_only(s: StateView)
    requires
        s.input_mode == InputMode::Normal,
    ensures
        step(s, Key::Char(':')).input_mode == if highlights_repository(s) {
            InputMode::Editing
        } else {
            InputMode::Normal
        },
{
}

/// After every edit of the buffer in search mode the shown entries are the
/// entries of the last scan whose name contains the buffer: the filter starts
/// from the scan each time, never from what was shown before.
pub proof fn lemma_search_starts_from_scan(s: StateView, key: Key)
    requires
        s.input_mode == InputMode::Search,
        key is Char || key == Key::Backspace,
    ensures
        step(s, key).repositories == matching(s.scanned, step(s, key).input),
        step(s, key).highlighted == None::<nat>,
        step(s, key).scanned == s.scanned,
{
}

/// Once the buffer is empty again in search mode, the shown entries are all
/// the entries of the last scan, in their order.
pub proof fn lemma_empty_search_shows_scan(s: StateView)
    requires
        s.input_mode == InputMode::Search,
        s.input.len() <= 1,
    ensures
        step(s, Key::Backspace).input.len() == 0,
        step(s, Key::Backspace).repositories == s.scanned,
{
    lemma_matching_empty_pattern(s.scanned);
    assert(shortened(s.input) =~= Seq::<char>::empty());
}

/// A character typed in search mode and taken back leaves the shown entries
/// as the filter gives them for the buffer before.
pub proof fn lemma_search_correction(s: StateView, c: char)
    requires
        s.input_mode == InputMode::Search,
    ensures
        step(step(s, Key::Char(c)), Key::Backspace).input == s.input,
        step(step(s, Key::Char(c)), Key::Backspace).repositories == matching(s.scanned, s.input),
{
    assert(s.input.push(c).drop_last() =~= s.input);
}

/// The position that `first_named` gives holds an entry of that name, and
/// no entry before it has the name; where it gives none, no entry has it.
pub proof fn lemma_first_named(entries: Seq<EntryView>, name: Seq<char>)
    ensures
        match first_named(entries, name) {
            Some(i) => {
                &&& i < entries.len()
                &&& entries[i as int].name == name
                &&& forall|j: int| 0 <= j < i ==> (#[trigger] entries[j]).name != name
            },
            None => forall|j: int| 0 <= j < entries.len() ==> (#[trigger] entries[j]).name != name,
        },
    decreases entries.len(),
{
    if entries.len() > 0 {
        lemma_first_named(entries.drop_last(), name);
        assert(forall|j: int|
            0 <= j < entries.len() - 1 ==> entries.drop_last()[j] == #[trigger] entries[j]);
    }
}

/// A new scan keeps the highlight on the entry of the same name, and drops it
/// where the scan has no entry of that name.
pub proof fn lemma_rescan_follows_name(s: StateView, scanned: Seq<EntryView>)
    requires
        consistent(s),
    ensures
        consistent(rescanned(s, scanned)),
        match (s.highlighted, rescanned(s, scanned).highlighted) {
            (Some(i), Some(k)) => k < scanned.len() && scanned[k as int].name
                == s.repositories[i as int].name,
            (Some(i), None) => forall|j: int|
                0 <= j < scanned.len() ==> (#[trigger] scanned[j]).name
                    != s.repositories[i as int].name,
            (None, after) => after.is_none(),
        },
{
    match s.highlighted {
        Some(i) => {
            lemma_first_named(scanned, s.repositories[i as int].name);
        },
        None => {},
    }
}

} // verus!
