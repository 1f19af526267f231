//! What git knows of a directory: whether it is a repository, and the tags,
//! branches and active branch of one.

use vstd::prelude::*;
use crate::entry::{well_formed, Entry, EntryView};
use crate::text::starts_with;

verus! {

/// `git2::Repository`, an open repository. Nothing is known of what is
/// inside one.
#[verifier::external_type_specification]
#[verifier::external_body]
pub struct ExRepository(git2::Repository);

/// The prefix that git puts before a local branch's name in a reference.
pub const HEADS_PREFIX: &'static str = "refs/heads/";

/// A reference's name without the prefix of local branches at its start; a
/// name that does not start with the prefix is left as it is.
pub open spec fn without_heads_prefix(reference: Seq<char>) -> Seq<char> {
    if HEADS_PREFIX@.is_prefix_of(reference) {
        reference.subrange(HEADS_PREFIX@.len() as int, reference.len() as int)
    } else {
        reference
    }
}

/// The names among `listed` that could be read, in order.
pub open spec fn present(listed: Seq<Option<String>>) -> Seq<String>
    decreases listed.len(),
{
    if listed.len() == 0 {
        Seq::empty()
    } else {
        match listed.last() {
            Some(name) => present(listed.drop_last()).push(name),
            None => present(listed.drop_last()),
        }
    }
}

/// Calls `git2::Repository::open` on `path`, `None` standing for every
/// failure. The call turns the path into a C string first and fails where
/// that fails, which is where the path holds a NUL character. Of any other
/// path the result depends on what is on disk, and nothing is claimed of it.
#[verifier::external_body]
pub fn get_repository(path: &str) -> (repository: Option<git2::Repository>)
    ensures
        path@.contains('\0') ==> repository.is_none(),
{
    match git2::Repository::open(path) {
        Ok(repository) => Some(repository),
        Err(_) => None,
    }
}

/// Calls `git2::Repository::tag_names` without a pattern, which lists every
/// tag, and hands out each name that it lists, `None` for one that is not
/// UTF-8. A listing that fails is handed out as an empty one. Nothing is
/// claimed of the result.
#[verifier::external_body]
fn list_tags(repository: &git2::Repository) -> (listed: Vec<Option<String>>) {
    match repository.tag_names(None) {
        Ok(names) => names.iter().map(|name| name.ok().flatten().map(String::from)).collect(),
        Err(_) => Vec::new(),
    }
}

/// Calls `git2::Repository::branches` for the branches of every kind and
/// `git2::Branch::name` on each, `None` for a branch whose name cannot be read
/// or is not UTF-8. A listing that fails is handed out as an empty one.
/// Nothing is claimed of the result.
#[verifier::external_body]
fn list_branches(repository: &git2::Repository) -> (listed: Vec<Option<String>>) {
    match repository.branches(None) {
        Ok(branches) => branches.map(
            |branch| branch.ok().and_then(|b| b.0.name().ok().flatten().map(String::from)),
        ).collect(),
        Err(_) => Vec::new(),
    }
}

/// Calls `git2::Repository::head` and `git2::Reference::name` on what it
/// returns: the full name of the reference that HEAD points at, `None` where
/// either call fails. Nothing is claimed of the result.
#[verifier::external_body]
fn head_reference(repository: &git2::Repository) -> (name: Option<String>) {
    match repository.head() {
        Ok(head) => head.name().ok().map(String::from),
        Err(_) => None,
    }
}

/// The names that could be read, in the order in which they were listed.
pub fn readable_names(listed: Vec<Option<String>>) -> (names: Vec<String>)
    ensures
        names@ == present(listed@),
{
    let mut names: Vec<String> = Vec::new();
    let mut i: usize = 0;
    while i < listed.len()
        invariant
            i <= listed.len(),
            names@ == present(listed@.subrange(0, i as int)),
        decreases listed.len() - i,
    {
        assert(listed@.subrange(0, i + 1).drop_last() =~= listed@.subrange(0, i as int));
        match &listed[i] {
            Some(name) => {
                names.push(name.clone());
            },
            None => {},
        }
        i += 1;
    }
    assert(listed@.subrange(0, i as int) =~= listed@);
    names
}

/// The name of the branch that a reference stands for: the reference's name
/// without the prefix of local branches at its start.
pub fn branch_of_reference(reference: &str) -> (branch: String)
    ensures
        branch@ == without_heads_prefix(reference@),
{
    if starts_with(reference, HEADS_PREFIX) {
        let from: usize = HEADS_PREFIX.unicode_len();
        let to: usize = reference.unicode_len();
        String::from_str(reference.substring_char(from, to))
    } else {
        String::from_str(reference)
    }
}

/// Whether git can open a repository at `path`. It can open none at a path
/// that holds a NUL character; of any other path the answer depends on what
/// is on disk.
pub fn is_repository(path: &str) -> (found: bool)
    ensures
        path@.contains('\0') ==> !found,
{
    get_repository(path).is_some()
}

/// The tags of a repository; none where there is no repository.
pub fn get_repository_tags(repository: &Option<git2::Repository>) -> (tags: Vec<String>)
    ensures
        repository.is_none() ==> tags@.len() == 0,
{
    match repository {
        Some(r) => readable_names(list_tags(r)),
        None => Vec::new(),
    }
}

/// The branches of a repository; none where there is no repository.
pub fn get_repository_branches(repository: &Option<git2::Repository>) -> (branches: Vec<String>)
    ensures
        repository.is_none() ==> branches@.len() == 0,
{
    match repository {
        Some(r) => readable_names(list_branches(r)),
        None => Vec::new(),
    }
}

/// The branch that HEAD names, for a reference that was read or was not.
pub fn active_branch_of(head: Option<String>) -> (branch: String)
    ensures
        branch@ == match head {
            Some(reference) => without_heads_prefix(reference@),
            None => Seq::empty(),
        },
{
    match head {
        Some(reference) => branch_of_reference(reference.as_str()),
        None => String::new(),
    }
}

/// The active branch of a repository; empty where there is no repository or
/// HEAD cannot be resolved.
pub fn get_repository_active_branch(repository: &Option<git2::Repository>) -> (branch: String)
    ensures
        repository.is_none() ==> branch@.len() == 0,
{
    match repository {
        Some(r) => active_branch_of(head_reference(r)),
        None => String::new(),
    }
}

/// The path of the child `name` of `directory`.
pub fn child_path(directory: &str, name: &str) -> (path: String)
    ensures
        path@ == directory@ + seq!['/'] + name@,
{
    proof {
        reveal_strlit("/");
    }
    let mut path = String::from_str(directory);
    path.append("/");
    path.append(name);
    assert("/"@ =~= seq!['/']);
    path
}

/// The entry called `name` for what was learned of it: a repository with
/// its active branch, its tags and its branches where there was one to
/// inspect, a plain folder otherwise. There is no entry for an empty name.
pub fn entry_of(name: String, inspected: Option<(String, Vec<String>, Vec<String>)>) -> (entry:
    Option<Entry>)
    ensures
        entry.is_some() == (name@.len() > 0),
        entry.is_some() ==> entry.unwrap()@ == match inspected {
            Some((active, tags, branches)) => (EntryView {
                name: name@,
                is_repository: true,
                active_branch: active@,
                tags: tags@,
                branches: branches@,
            }),
            None => (EntryView {
                name: name@,
                is_repository: false,
                active_branch: Seq::empty(),
                tags: Seq::empty(),
                branches: Seq::empty(),
            }),
        },
{
    match inspected {
        Some((active, tags, branches)) => Entry::repository(name, active, tags, branches),
        None => Entry::folder(name),
    }
}

/// The entry for the child `name` of `directory`: a repository with what git
/// lists of it where git can open one there, a plain folder otherwise. There
/// is no entry for an empty name, and no repository at a path that holds a NUL
/// character.
pub fn inspect_entry(directory: &str, name: &str) -> (entry: Option<Entry>)
    ensures
        entry.is_some() == (name@.len() > 0),
        entry.is_some() ==> entry.unwrap()@.name == name@,
        entry.is_some() ==> well_formed(entry.unwrap()@),
        (directory@ + seq!['/'] + name@).contains('\0') ==> entry.is_some()
            ==> !entry.unwrap()@.is_repository,
{
    let path = child_path(directory, name);
    let repository = get_repository(path.as_str());
    let inspected = if repository.is_some() {
        let active_branch = get_repository_active_branch(&repository);
        let tags = get_repository_tags(&repository);
        let branches = get_repository_branches(&repository);
        Some((active_branch, tags, branches))
    } else {
        None
    };
    entry_of(String::from_str(name), inspected)
}

} // verus!
