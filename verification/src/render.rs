//! What the panels show, as plain text: the order of a list's lines and the
//! parts of an entry's line.

use vstd::prelude::*;
use crate::entry::{Entry, EntryView};
use crate::model::Selection;
use crate::text::blanks;

verus! {

/// The columns of an entry's line that neither the name, the branch nor the
/// padding takes: the two brackets, the highlight mark and the borders.
pub const LINE_DECORATION: usize = 6;

/// The number of blanks between a repository's name and its branch on a line
/// of `width` columns, for a name and a branch of the given lengths.
pub open spec fn padding(width: int, name_len: int, branch_len: int) -> int {
    if width - name_len - branch_len - LINE_DECORATION > 0 {
        width - name_len - branch_len - LINE_DECORATION
    } else {
        0
    }
}

/// The number of blanks that push a repository's branch to the right edge of
/// its line; none where the line is too narrow.
pub fn padding_width(width: u16, name_len: usize, branch_len: usize) -> (blanks: usize)
    ensures
        blanks == padding(width as int, name_len as int, branch_len as int),
{
    let width: usize = width as usize;
    if name_len >= width {
        return 0;
    }
    let after_name: usize = width - name_len;
    if branch_len >= after_name {
        return 0;
    }
    let after_branch: usize = after_name - branch_len;
    if after_branch <= LINE_DECORATION {
        0
    } else {
        after_branch - LINE_DECORATION
    }
}

/// The lines of a list panel: the items from the last to the first.
pub fn list_lines(items: &Vec<String>) -> (lines: Vec<String>)
    ensures
        lines@ == items@.reverse(),
{
    let mut lines: Vec<String> = Vec::new();
    let mut left: usize = items.len();
    while left > 0
        invariant
            left <= items.len(),
            lines@.len() == items.len() - left,
            forall|k: int| 0 <= k < lines@.len() ==> lines@[k] == items@[items.len() - 1 - k],
        decreases left,
    {
        left -= 1;
        lines.push(items[left].clone());
    }
    assert(lines@ =~= items@.reverse());
    lines
}

/// The title of a list's panel.
pub open spec fn title_of(selection: Selection) -> Seq<char> {
    match selection {
        Selection::Repositories => "Repositories"@,
        Selection::Branches => "Branches"@,
        Selection::Tags => "Tags"@,
    }
}

/// The title of a list's panel.
pub fn panel_title(selection: Selection) -> (title: &'static str)
    ensures
        title@ == title_of(selection),
{
    match selection {
        Selection::Repositories => "Repositories",
        Selection::Branches => "Branches",
        Selection::Tags => "Tags",
    }
}

/// The parts of an entry's line on `width` columns: the name alone for a
/// plain folder; for a repository the name, the blanks that push the rest to
/// the right, and the active branch in brackets.
pub open spec fn line_parts(entry: EntryView, width: u16) -> Seq<Seq<char>> {
    if entry.is_repository {
        seq![
            entry.name,
            Seq::new(
                padding(width as int, entry.name.len() as int, entry.active_branch.len() as int)
                    as nat,
                |i: int| ' ',
            ),
            seq!['('],
            entry.active_branch,
            seq![')'],
        ]
    } else {
        seq![entry.name]
    }
}

/// The parts of an entry's line on `width` columns, from left to right.
pub fn entry_line(entry: &Entry, width: u16) -> (parts: Vec<String>)
    ensures
        parts@.map_values(|part: String| part@) == line_parts(entry@, width),
{
    let mut parts: Vec<String> = Vec::new();
    parts.push(entry.name().clone());
    if entry.is_repository() {
        let name_len: usize = entry.name().as_str().unicode_len();
        let branch_len: usize = entry.active_branch().as_str().unicode_len();
        parts.push(blanks(padding_width(width, name_len, branch_len)));
        parts.push(String::from_str("("));
        parts.push(entry.active_branch().clone());
        parts.push(String::from_str(")"));
        proof {
            reveal_strlit("(");
            reveal_strlit(")");
            assert("("@ =~= seq!['(']);
            assert(")"@ =~= seq![')']);
        }
    }
    assert(parts@.map_values(|part: String| part@) =~= line_parts(entry@, width));
    parts
}

} // verus!
