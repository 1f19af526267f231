//! One child of the browsed directory, with what was learned of it as a
//! repository when the directory was scanned.

use vstd::prelude::*;

verus! {

/// What an `Entry` holds, as plain values.
pub struct EntryView {
    pub name: Seq<char>,
    pub is_repository: bool,
    pub active_branch: Seq<char>,
    pub tags: Seq<String>,
    pub branches: Seq<String>,
}

/// Whether the values describe an entry that may exist: it has a name, and
/// one that is no repository has no active branch, no tag and no branch.
pub open spec fn well_formed(entry: EntryView) -> bool {
    &&& entry.name.len() > 0
    &&& !entry.is_repository ==> {
        &&& entry.active_branch.len() == 0
        &&& entry.tags.len() == 0
        &&& entry.branches.len() == 0
    }
}

/// A child of the browsed directory. It is made whole by a scan and never
/// changed afterwards.
pub struct Entry {
    name: String,
    is_repository: bool,
    active_branch: String,
    tags: Vec<String>,
    branches: Vec<String>,
}

impl View for Entry {
    type V = EntryView;

    closed spec fn view(&self) -> EntryView {
        EntryView {
            name: self.name@,
            is_repository: self.is_repository,
            active_branch: self.active_branch@,
            tags: self.tags@,
            branches: self.branches@,
        }
    }
}

/// The entries of a list as plain values.
pub open spec fn views(entries: Seq<Entry>) -> Seq<EntryView> {
    entries.map_values(|e: Entry| e@)
}

/// A copy of a list of strings.
pub fn copy_strings(source: &Vec<String>) -> (copy: Vec<String>)
    ensures
        copy@ == source@,
{
    let mut copy: Vec<String> = Vec::new();
    let mut i: usize = 0;
    while i < source.len()
        invariant
            i <= source.len(),
            copy@ == source@.subrange(0, i as int),
        decreases source.len() - i,
    {
        copy.push(source[i].clone());
        i += 1;
        assert(copy@ =~= source@.subrange(0, i as int));
    }
    assert(copy@ =~= source@);
    copy
}

impl Entry {
    #[verifier::type_invariant]
    spec fn inv(&self) -> bool {
        well_formed(self@)
    }

    /// An entry for a plain folder. There is none for an empty name.
    pub fn folder(name: String) -> (entry: Option<Entry>)
        ensures
            entry.is_some() == (name@.len() > 0),
            entry.is_some() ==> entry.unwrap()@ == (EntryView {
                name: name@,
                is_repository: false,
                active_branch: Seq::empty(),
                tags: Seq::empty(),
                branches: Seq::empty(),
            }),
    {
        if name.as_str().is_empty() {
            None
        } else {
            Some(
                Entry {
                    name,
                    is_repository: false,
                    active_branch: String::new(),
                    tags: Vec::new(),
                    branches: Vec::new(),
                },
            )
        }
    }

    /// An entry for a repository with its active branch, its tags and its
    /// branches. There is none for an empty name.
    pub fn repository(
        name: String,
        active_branch: String,
        tags: Vec<String>,
        branches: Vec<String>,
    ) -> (entry: Option<Entry>)
        ensures
            entry.is_some() == (name@.len() > 0),
            entry.is_some() ==> entry.unwrap()@ == (EntryView {
                name: name@,
                is_repository: true,
                active_branch: active_branch@,
                tags: tags@,
                branches: branches@,
            }),
    {
        if name.as_str().is_empty() {
            None
        } else {
            Some(Entry { name, is_repository: true, active_branch, tags, branches })
        }
    }

    /// The display label. It is never empty.
    pub fn name(&self) -> (name: &String)
        ensures
            name@ == self@.name,
            name@.len() > 0,
    {
        proof {
            use_type_invariant(self);
        }
        &self.name
    }

    /// Whether the entry is a repository. One that is not has no active
    /// branch, no tag and no branch.
    pub fn is_repository(&self) -> (is_repository: bool)
        ensures
            is_repository == self@.is_repository,
            well_formed(self@),
    {
        proof {
            use_type_invariant(self);
        }
        self.is_repository
    }

    /// The branch that is checked out; empty for a plain folder.
    pub fn active_branch(&self) -> (branch: &String)
        ensures
            branch@ == self@.active_branch,
    {
        &self.active_branch
    }

    /// The tags that the scan found.
    pub fn tags(&self) -> (tags: &Vec<String>)
        ensures
            tags@ == self@.tags,
    {
        &self.tags
    }

    /// The branches that the scan found.
    pub fn branches(&self) -> (branches: &Vec<String>)
        ensures
            branches@ == self@.branches,
    {
        &self.branches
    }

    /// A copy of the entry.
    pub fn duplicate(&self) -> (copy: Entry)
        ensures
            copy@ == self@,
    {
        proof {
            use_type_invariant(self);
        }
        Entry {
            name: self.name.clone(),
            is_repository: self.is_repository,
            active_branch: self.active_branch.clone(),
            tags: copy_strings(&self.tags),
            branches: copy_strings(&self.branches),
        }
    }
}

} // verus!
