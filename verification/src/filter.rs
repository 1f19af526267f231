//! The search filter: which entries of a scan carry a given text in their
//! name.

use vstd::prelude::*;
use crate::entry::{views, Entry, EntryView};

verus! {

/// Whether `pattern` stands in `text` at position `at`.
pub open spec fn occurs_at(text: Seq<char>, pattern: Seq<char>, at: int) -> bool {
    &&& 0 <= at
    &&& at + pattern.len() <= text.len()
    &&& text.subrange(at, at + pattern.len()) == pattern
}

/// Whether `pattern` stands somewhere in `text`, letter for letter. The
/// empty pattern stands in every text.
pub open spec fn contains_text(text: Seq<char>, pattern: Seq<char>) -> bool {
    exists|at: int| occurs_at(text, pattern, at)
}

/// The entries whose name contains `pattern`, in the order in which they
/// stand in `entries`.
pub open spec fn matching(entries: Seq<EntryView>, pattern: Seq<char>) -> Seq<EntryView>
    decreases entries.len(),
{
    if entries.len() == 0 {
        Seq::empty()
    } else {
        let before = matching(entries.drop_last(), pattern);
        if contains_text(entries.last().name, pattern) {
            before.push(entries.last())
        } else {
            before
        }
    }
}

/// Whether `pattern` stands in `text` at the character position `at`.
fn matches_at(text: &str, pattern: &str, at: usize, text_len: usize, pattern_len: usize) -> (found:
    bool)
    requires
        text_len == text@.len(),
        pattern_len == pattern@.len(),
        at + pattern_len <= text_len,
    ensures
        found == occurs_at(text@, pattern@, at as int),
{
    let mut k: usize = 0;
    while k < pattern_len
        invariant
            k <= pattern_len,
            text_len == text@.len(),
            pattern_len == pattern@.len(),
            at + pattern_len <= text_len,
            forall|j: int| 0 <= j < k ==> text@[at + j] == pattern@[j],
        decreases pattern_len - k,
    {
        if text.get_char(at + k) != pattern.get_char(k) {
            assert(text@.subrange(at as int, at + pattern@.len())[k as int] != pattern@[k as int]);
            return false;
        }
        k += 1;
    }
    assert(text@.subrange(at as int, at + pattern@.len()) =~= pattern@);
    true
}

/// Whether `pattern` stands somewhere in `text`. Upper and lower case are
/// different letters.
pub fn contains(text: &str, pattern: &str) -> (found: bool)
    ensures
        found == contains_text(text@, pattern@),
{
    let text_len: usize = text.unicode_len();
    let pattern_len: usize = pattern.unicode_len();
    if pattern_len > text_len {
        return false;
    }
    let last: usize = text_len - pattern_len;
    let mut at: usize = 0;
    while at < last
        invariant
            at <= last,
            text_len == text@.len(),
            pattern_len == pattern@.len(),
            last == text_len - pattern_len,
            forall|a: int| 0 <= a < at ==> !occurs_at(text@, pattern@, a),
        decreases last - at,
    {
        if matches_at(text, pattern, at, text_len, pattern_len) {
            return true;
        }
        at += 1;
    }
    matches_at(text, pattern, last, text_len, pattern_len)
}

/// Copies of the entries whose name contains `pattern`, in their order.
pub fn filter_entries(entries: &Vec<Entry>, pattern: &str) -> (kept: Vec<Entry>)
    ensures
        views(kept@) == matching(views(entries@), pattern@),
{
    let mut kept: Vec<Entry> = Vec::new();
    let mut i: usize = 0;
    while i < entries.len()
        invariant
            i <= entries.len(),
            views(kept@) == matching(views(entries@.subrange(0, i as int)), pattern@),
        decreases entries.len() - i,
    {
        let ghost before = views(entries@.subrange(0, i as int));
        let ghost now = views(entries@.subrange(0, i + 1));
        assert(now.drop_last() =~= before);
        assert(now.last() == entries@[i as int]@);
        let ghost old_kept = kept@;
        if contains(entries[i].name().as_str(), pattern) {
            let copy = entries[i].duplicate();
            kept.push(copy);
            assert(views(kept@) =~= views(old_kept).push(copy@));
        }
        i += 1;
    }
    assert(entries@.subrange(0, i as int) =~= entries@);
    kept
}

/// With the empty pattern the filter keeps every entry, in order.
pub proof fn lemma_matching_empty_pattern(entries: Seq<EntryView>)
    ensures
        matching(entries, Seq::empty()) == entries,
    decreases entries.len(),
{
    if entries.len() > 0 {
        lemma_matching_empty_pattern(entries.drop_last());
        let name = entries.last().name;
        assert(name.subrange(0, 0) =~= Seq::<char>::empty());
        assert(occurs_at(name, Seq::empty(), 0));
        assert(entries.drop_last().push(entries.last()) =~= entries);
    }
}

/// Every entry that the filter keeps contains the pattern in its name.
pub proof fn lemma_matching_sound(entries: Seq<EntryView>, pattern: Seq<char>)
    ensures
        forall|i: int|
            0 <= i < matching(entries, pattern).len() ==> contains_text(
                (#[trigger] matching(entries, pattern)[i]).name,
                pattern,
            ),
        forall|i: int|
            0 <= i < matching(entries, pattern).len() ==> entries.contains(
                #[trigger] matching(entries, pattern)[i],
            ),
    decreases entries.len(),
{
    if entries.len() > 0 {
        lemma_matching_sound(entries.drop_last(), pattern);
        let before = matching(entries.drop_last(), pattern);
        assert forall|i: int| 0 <= i < matching(entries, pattern).len() implies entries.contains(
            #[trigger] matching(entries, pattern)[i],
        ) by {
            if i < before.len() {
                let j = choose|j: int|
                    0 <= j < entries.drop_last().len() && entries.drop_last()[j] == before[i];
                assert(entries[j] == before[i]);
            } else {
                assert(entries[entries.len() - 1] == entries.last());
            }
        }
    }
}

/// Every entry whose name contains the pattern is kept by the filter.
pub proof fn lemma_matching_complete(entries: Seq<EntryView>, pattern: Seq<char>)
    ensures
        forall|i: int|
            0 <= i < entries.len() && contains_text((#[trigger] entries[i]).name, pattern)
                ==> matching(entries, pattern).contains(entries[i]),
    decreases entries.len(),
{
    if entries.len() > 0 {
        lemma_matching_complete(entries.drop_last(), pattern);
        let before = matching(entries.drop_last(), pattern);
        let all = matching(entries, pattern);
        assert forall|i: int|
            0 <= i < entries.len() && contains_text(
                (#[trigger] entries[i]).name,
                pattern,
            ) implies all.contains(entries[i]) by {
            if i < entries.len() - 1 {
                assert(entries.drop_last()[i] == entries[i]);
                let j = choose|j: int| 0 <= j < before.len() && before[j] == entries[i];
                assert(all[j] == entries[i]);
            } else {
                assert(all[all.len() - 1] == entries[i]);
            }
        }
    }
}

/// The filter keeps the entries in their order: what it keeps of the first
/// `cut` entries is the beginning of what it keeps of them all.
pub proof fn lemma_matching_of_prefix(entries: Seq<EntryView>, pattern: Seq<char>, cut: int)
    requires
        0 <= cut <= entries.len(),
    ensures
        matching(entries.subrange(0, cut), pattern).is_prefix_of(matching(entries, pattern)),
    decreases entries.len(),
{
    if cut == entries.len() {
        assert(entries.subrange(0, cut) =~= entries);
    } else {
        lemma_matching_of_prefix(entries.drop_last(), pattern, cut);
        assert(entries.drop_last().subrange(0, cut) =~= entries.subrange(0, cut));
    }
}

} // verus!
