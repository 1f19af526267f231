//! The application state: four lists, the current directory, the list that
//! navigation moves in, the input mode and the input buffer.

use vstd::prelude::*;
use crate::entry::{views, Entry};
use crate::filter::filter_entries;
use crate::git::{child_path, get_repository, get_repository_branches, get_repository_tags};
use crate::list::SelectableList;
use crate::text::{pop_char, push_char};
use crate::model::{
    at_or_under, consistent, first_named, highlights_repository, lists_details, navigated,
    outcome_of, refiltered, rescanned, status_text, step, with_details, without_details,
    InputMode, Key, Outcome, Selection, StateView,
};

verus! {

/// Copies of the entries, in order.
pub fn copy_entries(entries: &Vec<Entry>) -> (copies: Vec<Entry>)
    ensures
        views(copies@) == views(entries@),
{
    let mut copies: Vec<Entry> = Vec::new();
    let mut i: usize = 0;
    while i < entries.len()
        invariant
            i <= entries.len(),
            views(copies@) == views(entries@.subrange(0, i as int)),
        decreases entries.len() - i,
    {
        let ghost before = copies@;
        let copy = entries[i].duplicate();
        copies.push(copy);
        assert(views(copies@) =~= views(before).push(copy@));
        assert(views(entries@.subrange(0, i + 1)) =~= views(entries@.subrange(0, i as int)).push(
            entries@[i as int]@,
        ));
        i += 1;
    }
    assert(entries@.subrange(0, i as int) =~= entries@);
    copies
}

/// The position of the first entry called `name`, if there is one.
pub fn find_by_name(entries: &Vec<Entry>, name: &String) -> (found: Option<usize>)
    ensures
        first_named(views(entries@), name@) == match found {
            Some(i) => Some(i as nat),
            None => None,
        },
        match found {
            Some(i) => i < entries.len(),
            None => true,
        },
{
    let mut found: Option<usize> = None;
    let mut i: usize = 0;
    while i < entries.len()
        invariant
            i <= entries.len(),
            first_named(views(entries@.subrange(0, i as int)), name@) == match found {
                Some(k) => Some(k as nat),
                None => None,
            },
            match found {
                Some(k) => k < i,
                None => true,
            },
        decreases entries.len() - i,
    {
        assert(views(entries@.subrange(0, i + 1)).drop_last() =~= views(
            entries@.subrange(0, i as int),
        ));
        if found.is_none() && *entries[i].name() == *name {
            found = Some(i);
        }
        i += 1;
    }
    assert(entries@.subrange(0, i as int) =~= entries@);
    found
}

/// Whether `path` is `root` or lies under it.
pub fn is_at_or_under(path: &str, root: &str) -> (under: bool)
    ensures
        under == at_or_under(path@, root@),
{
    let path_len: usize = path.unicode_len();
    let root_len: usize = root.unicode_len();
    if root_len > path_len {
        return false;
    }
    let mut i: usize = 0;
    while i < root_len
        invariant
            i <= root_len,
            root_len <= path_len,
            root_len == root@.len(),
            path_len == path@.len(),
            forall|j: int| 0 <= j < i ==> path@[j] == root@[j],
        decreases root_len - i,
    {
        if path.get_char(i) != root.get_char(i) {
            return false;
        }
        i += 1;
    }
    assert(root@.is_prefix_of(path@)) by {
        assert(path@.subrange(0, root@.len() as int) =~= root@);
    }
    if path_len == root_len {
        return true;
    }
    if path.get_char(root_len) == '/' {
        return true;
    }
    root_len > 0 && root.get_char(root_len - 1) == '/'
}

/// The fields of the application state, with the transitions written for
/// a state that is consistent when they start.
struct Core {
    current_path: String,
    scanned: Vec<Entry>,
    repositories: SelectableList<Entry>,
    branches: SelectableList<String>,
    tags: SelectableList<String>,
    logs: SelectableList<String>,
    selection: Selection,
    input_mode: InputMode,
    input: String,
}

impl View for Core {
    type V = StateView;

    closed spec fn view(&self) -> StateView {
        StateView {
            current_path: self.current_path@,
            scanned: views(self.scanned@),
            repositories: views(self.repositories.entries()),
            highlighted: self.repositories.selection(),
            branches: self.branches.entries(),
            highlighted_branch: self.branches.selection(),
            tags: self.tags.entries(),
            highlighted_tag: self.tags.selection(),
            logs: self.logs.entries(),
            highlighted_log: self.logs.selection(),
            selection: self.selection,
            input_mode: self.input_mode,
            input: self.input@,
        }
    }
}

impl Core {
    /// Whether the state is one that the transitions can start from.
    spec fn wf(&self) -> bool {
        consistent(self@)
    }

    /// The state at start: the entries of the first scan of `current_path`
    /// are shown, nothing is highlighted, navigation moves among them, and
    /// the mode is normal.
    fn new(current_path: String, scanned: Vec<Entry>) -> (state: Core)
        ensures
            state.wf(),
            state@ == (StateView {
                current_path: current_path@,
                scanned: views(scanned@),
                repositories: views(scanned@),
                highlighted: None,
                branches: Seq::empty(),
                highlighted_branch: None,
                tags: Seq::empty(),
                highlighted_tag: None,
                logs: Seq::empty(),
                highlighted_log: None,
                selection: Selection::Repositories,
                input_mode: InputMode::Normal,
                input: Seq::empty(),
            }),
    {
        let shown = copy_entries(&scanned);
        Core {
            current_path,
            scanned,
            repositories: SelectableList::with_items(shown),
            branches: SelectableList::new(),
            tags: SelectableList::new(),
            logs: SelectableList::new(),
            selection: Selection::Repositories,
            input_mode: InputMode::Normal,
            input: String::new(),
        }
    }

    /// Empties both detail panels.
    fn clear_details(&mut self)
        ensures
            final(self)@ == without_details(old(self)@),
    {
        self.branches.replace(Vec::new());
        self.tags.replace(Vec::new());
    }

    /// Puts the given branches and tags into the detail panels where a
    /// repository is highlighted, and empties the panels where none is.
    fn set_details(&mut self, branches: Vec<String>, tags: Vec<String>)
        requires
            old(self).wf(),
        ensures
            final(self).wf(),
            final(self)@ == if highlights_repository(old(self)@) {
                with_details(old(self)@, branches@, tags@)
            } else {
                without_details(old(self)@)
            },
    {
        if self.highlights_repository() {
            self.branches.replace(branches);
            self.tags.replace(tags);
        } else {
            self.clear_details();
        }
    }

    /// Whether a repository is highlighted among the shown entries.
    fn highlights_repository(&self) -> (highlighted: bool)
        ensures
            highlighted == highlights_repository(self@),
    {
        match self.repositories.selected_item() {
            Some(entry) => {
                let _ = self.repositories.selected();
                entry.is_repository()
            },
            None => false,
        }
    }

    /// Lists the branches and tags of the highlighted repository anew. Where
    /// no repository is highlighted the panels are emptied. What git lists
    /// depends on what is on disk: `set_details` says what becomes of it.
    fn refresh_details(&mut self)
        requires
            old(self).wf(),
        ensures
            final(self).wf(),
            final(self)@ == with_details(old(self)@, final(self)@.branches, final(self)@.tags),
            !highlights_repository(old(self)@) ==> final(self)@ == without_details(old(self)@),
    {
        let mut branches: Vec<String> = Vec::new();
        let mut tags: Vec<String> = Vec::new();
        match self.repositories.selected_item() {
            Some(entry) => {
                if entry.is_repository() {
                    let path = child_path(self.current_path.as_str(), entry.name().as_str());
                    let repository = get_repository(path.as_str());
                    branches = get_repository_branches(&repository);
                    tags = get_repository_tags(&repository);
                }
            },
            None => {},
        }
        self.set_details(branches, tags);
    }

    /// Takes the buffer's text and leaves the buffer empty, in normal mode.
    fn commit(&mut self) -> (text: String)
        ensures
            text@ == old(self)@.input,
            final(self)@ == (StateView {
                input_mode: InputMode::Normal,
                input: Seq::empty(),
                ..old(self)@
            }),
    {
        let text = self.input.clone();
        self.input = String::new();
        self.input_mode = InputMode::Normal;
        text
    }

    /// Shows the entries of the last scan whose name contains the buffer,
    /// with nothing highlighted.
    fn refilter(&mut self)
        ensures
            final(self)@ == refiltered(old(self)@, old(self)@.input),
    {
        let kept = filter_entries(&self.scanned, self.input.as_str());
        self.repositories.replace(kept);
        self.clear_details();
    }

    /// Up or Down in normal mode, `forward` for Down.
    fn navigate(&mut self, forward: bool)
        requires
            old(self).wf(),
        ensures
            final(self).wf(),
            old(self)@.selection == Selection::Repositories && highlights_repository(
                navigated(old(self)@, forward),
            ) ==> final(self)@ == with_details(
                navigated(old(self)@, forward),
                final(self)@.branches,
                final(self)@.tags,
            ),
            !(old(self)@.selection == Selection::Repositories && highlights_repository(
                navigated(old(self)@, forward),
            )) ==> final(self)@ == navigated(old(self)@, forward),
    {
        match self.selection {
            Selection::Repositories => {
                if forward {
                    self.repositories.select_next();
                } else {
                    self.repositories.select_previous();
                }
                self.clear_details();
                self.refresh_details();
            },
            Selection::Branches => {
                if forward {
                    self.branches.select_next();
                } else {
                    self.branches.select_previous();
                }
            },
            Selection::Tags => {
                if forward {
                    self.tags.select_next();
                } else {
                    self.tags.select_previous();
                }
            },
        }
    }

    /// A key in normal mode.
    fn handle_normal(&mut self, key: Key) -> (outcome: Outcome)
        requires
            old(self).wf(),
            old(self)@.input_mode == InputMode::Normal,
        ensures
            final(self).wf(),
            outcome_of(old(self)@, key, outcome),
            lists_details(old(self)@, key) ==> final(self)@ == with_details(
                step(old(self)@, key),
                final(self)@.branches,
                final(self)@.tags,
            ),
            !lists_details(old(self)@, key) ==> final(self)@ == step(old(self)@, key),
    {
        match key {
            Key::Left => {
                self.repositories.unselect();
                self.clear_details();
                Outcome::Continue
            },
            Key::Down => {
                self.navigate(true);
                Outcome::Continue
            },
            Key::Up => {
                self.navigate(false);
                Outcome::Continue
            },
            Key::Char(c) => {
                if c == 'q' {
                    return Outcome::Quit;
                } else if c == 'r' {
                    self.selection = Selection::Repositories;
                } else if c == 't' {
                    self.selection = Selection::Tags;
                } else if c == 'b' {
                    self.selection = Selection::Branches;
                } else if c == ':' {
                    if self.highlights_repository() {
                        self.input_mode = InputMode::Editing;
                    }
                } else if c == '/' {
                    self.input = String::new();
                    self.input_mode = InputMode::Search;
                } else if c == '$' {
                    match self.selection {
                        Selection::Repositories => {
                            self.input_mode = InputMode::Command;
                        },
                        _ => {},
                    }
                }
                Outcome::Continue
            },
            _ => Outcome::Continue,
        }
    }

    /// A key in one of the two modes that only edit the buffer and hand it
    /// out on Enter.
    fn handle_text(&mut self, key: Key) -> (outcome: Outcome)
        requires
            old(self).wf(),
            old(self)@.input_mode == InputMode::Editing || old(self)@.input_mode
                == InputMode::Command,
        ensures
            final(self).wf(),
            outcome_of(old(self)@, key, outcome),
            final(self)@ == step(old(self)@, key),
    {
        match key {
            Key::Char(c) => {
                push_char(&mut self.input, c);
                Outcome::Continue
            },
            Key::Backspace => {
                let _ = pop_char(&mut self.input);
                Outcome::Continue
            },
            Key::Enter => {
                let editing = match self.input_mode {
                    InputMode::Editing => true,
                    _ => false,
                };
                let text = self.commit();
                if editing {
                    Outcome::ProcessInput(text)
                } else {
                    Outcome::RunCommand(text)
                }
            },
            Key::Esc => {
                let _ = self.commit();
                Outcome::Continue
            },
            _ => Outcome::Continue,
        }
    }

    /// A key in search mode.
    fn handle_search(&mut self, key: Key) -> (outcome: Outcome)
        requires
            old(self).wf(),
            old(self)@.input_mode == InputMode::Search,
        ensures
            final(self).wf(),
            outcome_of(old(self)@, key, outcome),
            final(self)@ == step(old(self)@, key),
    {
        match key {
            Key::Char(c) => {
                push_char(&mut self.input, c);
                self.refilter();
            },
            Key::Backspace => {
                let _ = pop_char(&mut self.input);
                self.refilter();
            },
            Key::Enter | Key::Esc => {
                let _ = self.commit();
            },
            _ => {},
        }
        Outcome::Continue
    }

    /// Applies one key. The mode decides what the key means, every key has
    /// an effect or none in every mode, and the result tells the event loop
    /// what is left for it to do. Where the key lands the highlight on a
    /// repository, the detail panels hold what git lists of it; in every other
    /// case the new state is `step` of the old one.
    fn handle_key(&mut self, key: Key) -> (outcome: Outcome)
        requires
            old(self).wf(),
        ensures
            final(self).wf(),
            outcome_of(old(self)@, key, outcome),
            lists_details(old(self)@, key) ==> final(self)@ == with_details(
                step(old(self)@, key),
                final(self)@.branches,
                final(self)@.tags,
            ),
            !lists_details(old(self)@, key) ==> final(self)@ == step(old(self)@, key),
    {
        match self.input_mode {
            InputMode::Normal => self.handle_normal(key),
            InputMode::Editing => self.handle_text(key),
            InputMode::Command => self.handle_text(key),
            InputMode::Search => self.handle_search(key),
        }
    }

    /// Whether a change at `path` concerns the current directory, so that it
    /// has to be scanned again.
    fn concerns(&self, path: &str) -> (concerned: bool)
        ensures
            concerned == at_or_under(path@, self@.current_path),
    {
        is_at_or_under(path, self.current_path.as_str())
    }

    /// Installs a new scan of the current directory. The shown entries are
    /// those of the scan; the highlight follows the name of the entry that
    /// had it, or is gone where the scan has no entry of that name. The detail
    /// panels are listed anew for a highlighted repository and empty
    /// otherwise.
    fn apply_scan(&mut self, scanned: Vec<Entry>)
        requires
            old(self).wf(),
        ensures
            final(self).wf(),
            final(self)@ == with_details(
                rescanned(old(self)@, views(scanned@)),
                final(self)@.branches,
                final(self)@.tags,
            ),
            !highlights_repository(rescanned(old(self)@, views(scanned@))) ==> final(self)@
                == rescanned(old(self)@, views(scanned@)),
    {
        let position: Option<usize> = match self.repositories.selected_item() {
            Some(entry) => {
                let _ = self.repositories.selected();
                find_by_name(&scanned, entry.name())
            },
            None => None,
        };
        let shown = copy_entries(&scanned);
        self.scanned = scanned;
        self.repositories.replace(shown);
        match position {
            Some(i) => {
                self.repositories.select(i);
            },
            None => {},
        }
        self.clear_details();
        self.refresh_details();
    }

    /// Appends a message to the log.
    fn log(&mut self, message: String)
        ensures
            final(self)@ == (StateView { logs: old(self)@.logs.push(message), ..old(self)@ }),
    {
        self.logs.push(message);
    }

    /// Whether navigation moves in the list `selection`, whose panel is
    /// then shown emphasised.
    fn is_emphasized(&self, selection: Selection) -> (emphasized: bool)
        ensures
            emphasized == (self@.selection == selection),
    {
        self.selection == selection
    }
}

/// The state of the application. It is owned by the event loop, which is the
/// only one to change it. Every state is consistent: each highlight names an
/// item, the buffer is empty in normal mode, and the detail panels are empty
/// unless a repository is highlighted.
pub struct AppState {
    core: Core,
}

impl View for AppState {
    type V = StateView;

    closed spec fn view(&self) -> StateView {
        self.core@
    }
}

impl AppState {
    #[verifier::type_invariant]
    spec fn inv(&self) -> bool {
        consistent(self.core@)
    }

    /// Takes the fields out for a transition and leaves an empty state.
    fn take(&mut self) -> (core: Core)
        ensures
            core@ == old(self)@,
            core.wf(),
    {
        proof {
            use_type_invariant(&*self);
        }
        let mut core = Core::new(String::new(), Vec::new());
        std::mem::swap(&mut self.core, &mut core);
        core
    }

    /// The state at start: the entries of the first scan of `current_path`
    /// are shown, nothing is highlighted, navigation moves among them, and
    /// the mode is normal.
    pub fn new(current_path: String, scanned: Vec<Entry>) -> (state: AppState)
        ensures
            consistent(state@),
            state@ == (StateView {
                current_path: current_path@,
                scanned: views(scanned@),
                repositories: views(scanned@),
                highlighted: None,
                branches: Seq::empty(),
                highlighted_branch: None,
                tags: Seq::empty(),
                highlighted_tag: None,
                logs: Seq::empty(),
                highlighted_log: None,
                selection: Selection::Repositories,
                input_mode: InputMode::Normal,
                input: Seq::empty(),
            }),
    {
        AppState { core: Core::new(current_path, scanned) }
    }

    /// Puts the given branches and tags into the detail panels where a
    /// repository is highlighted, and empties the panels where none is.
    pub fn set_details(&mut self, branches: Vec<String>, tags: Vec<String>)
        ensures
            consistent(old(self)@),
            consistent(final(self)@),
            final(self)@ == if highlights_repository(old(self)@) {
                with_details(old(self)@, branches@, tags@)
            } else {
                without_details(old(self)@)
            },
    {
        let mut core = self.take();
        core.set_details(branches, tags);
        self.core = core;
    }

    /// Whether a repository is highlighted among the shown entries.
    pub fn highlights_repository(&self) -> (highlighted: bool)
        ensures
            highlighted == highlights_repository(self@),
    {
        self.core.highlights_repository()
    }

    /// Lists the branches and tags of the highlighted repository anew. Where
    /// no repository is highlighted the panels are emptied. What git lists
    /// depends on what is on disk: `set_details` says what becomes of it.
    pub fn refresh_details(&mut self)
        ensures
            consistent(old(self)@),
            consistent(final(self)@),
            final(self)@ == with_details(old(self)@, final(self)@.branches, final(self)@.tags),
            !highlights_repository(old(self)@) ==> final(self)@ == without_details(old(self)@),
    {
        let mut core = self.take();
        core.refresh_details();
        self.core = core;
    }

    /// Applies one key. The mode decides what the key means, every key has
    /// an effect or none in every mode, and the result tells the event loop
    /// what is left for it to do. Where the key lands the highlight on a
    /// repository, the detail panels hold what git lists of it; in every other
    /// case the new state is `step` of the old one.
    pub fn handle_key(&mut self, key: Key) -> (outcome: Outcome)
        ensures
            consistent(old(self)@),
            consistent(final(self)@),
            outcome_of(old(self)@, key, outcome),
            lists_details(old(self)@, key) ==> final(self)@ == with_details(
                step(old(self)@, key),
                final(self)@.branches,
                final(self)@.tags,
            ),
            !lists_details(old(self)@, key) ==> final(self)@ == step(old(self)@, key),
    {
        let mut core = self.take();
        let outcome = core.handle_key(key);
        self.core = core;
        outcome
    }

    /// Whether a change at `path` concerns the current directory, so that it
    /// has to be scanned again.
    pub fn concerns(&self, path: &str) -> (concerned: bool)
        ensures
            concerned == at_or_under(path@, self@.current_path),
    {
        self.core.concerns(path)
    }

    /// Installs a new scan of the current directory. The shown entries are
    /// those of the scan; the highlight follows the name of the entry that
    /// had it, or is gone where the scan has no entry of that name. The detail
    /// panels are listed anew for a highlighted repository and empty
    /// otherwise.
    pub fn apply_scan(&mut self, scanned: Vec<Entry>)
        ensures
            consistent(old(self)@),
            consistent(final(self)@),
            final(self)@ == with_details(
                rescanned(old(self)@, views(scanned@)),
                final(self)@.branches,
                final(self)@.tags,
            ),
            !highlights_repository(rescanned(old(self)@, views(scanned@))) ==> final(self)@
                == rescanned(old(self)@, views(scanned@)),
    {
        let mut core = self.take();
        core.apply_scan(scanned);
        self.core = core;
    }

    /// Appends a message to the log.
    pub fn log(&mut self, message: String)
        ensures
            consistent(final(self)@),
            final(self)@ == (StateView { logs: old(self)@.logs.push(message), ..old(self)@ }),
    {
        let mut core = self.take();
        core.log(message);
        self.core = core;
    }

    /// Whether navigation moves in the list `selection`, whose panel is
    /// then shown emphasised.
    pub fn is_emphasized(&self, selection: Selection) -> (emphasized: bool)
        ensures
            emphasized == (self@.selection == selection),
    {
        self.core.is_emphasized(selection)
    }

    /// The bottom line of the frame: the current directory in normal mode,
    /// and in a text mode the key that entered the mode before the buffer.
    pub fn status_line(&self) -> (line: String)
        ensures
            line@ == status_text(self@),
    {
        let mark: &str = match self.core.input_mode {
            InputMode::Normal => {
                return self.core.current_path.clone();
            },
            InputMode::Editing => ":",
            InputMode::Search => "/",
            InputMode::Command => "$",
        };
        proof {
            reveal_strlit(":");
            reveal_strlit("/");
            reveal_strlit("$");
            assert(":"@ =~= seq![':']);
            assert("/"@ =~= seq!['/']);
            assert("$"@ =~= seq!['$']);
        }
        let mut line = String::from_str(mark);
        line.append(self.core.input.as_str());
        line
    }

    /// The directory that is browsed.
    pub fn current_path(&self) -> (path: &String)
        ensures
            path@ == self@.current_path,
    {
        &self.core.current_path
    }

    /// The entries that are shown, with their highlight.
    pub fn repositories(&self) -> (list: &SelectableList<Entry>)
        ensures
            views(list.entries()) == self@.repositories,
            list.selection() == self@.highlighted,
    {
        &self.core.repositories
    }

    /// The entries of the last scan, unfiltered.
    pub fn scanned(&self) -> (entries: &Vec<Entry>)
        ensures
            views(entries@) == self@.scanned,
    {
        &self.core.scanned
    }

    /// The branches of the highlighted repository, with their highlight.
    pub fn branches(&self) -> (list: &SelectableList<String>)
        ensures
            list.entries() == self@.branches,
            list.selection() == self@.highlighted_branch,
    {
        &self.core.branches
    }

    /// The tags of the highlighted repository, with their highlight.
    pub fn tags(&self) -> (list: &SelectableList<String>)
        ensures
            list.entries() == self@.tags,
            list.selection() == self@.highlighted_tag,
    {
        &self.core.tags
    }

    /// The log, oldest message first.
    pub fn logs(&self) -> (list: &SelectableList<String>)
        ensures
            list.entries() == self@.logs,
            list.selection() == self@.highlighted_log,
    {
        &self.core.logs
    }

    /// The list that navigation moves in.
    pub fn selection(&self) -> (selection: Selection)
        ensures
            selection == self@.selection,
    {
        self.core.selection
    }

    /// The input mode.
    pub fn input_mode(&self) -> (mode: InputMode)
        ensures
            mode == self@.input_mode,
    {
        self.core.input_mode
    }

    /// The text in the input buffer.
    pub fn input(&self) -> (text: &String)
        ensures
            text@ == self@.input,
    {
        &self.core.input
    }
}

} // verus!
