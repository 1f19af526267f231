//! The widgets of the frame, made from what the library computes. The
//! widgets are values of the `tui` crate and opaque here: what is verified is
//! which text and which emphasis goes into them.

use vstd::prelude::*;
use crate::entry::{Entry, EntryView};
use crate::model::Selection;
use crate::render::{entry_line, line_parts, list_lines, panel_title, title_of};
use crate::state::AppState;

verus! {

/// `tui::widgets::Block`, the frame and title of a panel. Nothing is known of
/// what is inside one.
#[verifier::external_type_specification]
#[verifier::external_body]
pub struct ExBlock<'a>(tui::widgets::Block<'a>);

/// `tui::widgets::ListItem`, one line of a list panel. Nothing is known of
/// what is inside one.
#[verifier::external_type_specification]
#[verifier::external_body]
pub struct ExListItem<'a>(tui::widgets::ListItem<'a>);

/// `tui::widgets::List`, a list panel. Nothing is known of what is inside one.
#[verifier::external_type_specification]
#[verifier::external_body]
pub struct ExList<'a>(tui::widgets::List<'a>);

/// The block that `tui` builds with all borders and `title` in black on
/// white, bold.
pub uninterp spec fn emphasized_block(title: Seq<char>) -> tui::widgets::Block<'static>;

/// The block that `tui` builds with all borders and `title` in white on
/// black.
pub uninterp spec fn plain_block(title: Seq<char>) -> tui::widgets::Block<'static>;

/// The list item that `tui` builds of one line of text.
pub uninterp spec fn line_item(line: Seq<char>) -> tui::widgets::ListItem<'static>;

/// The list item that `tui` builds of the parts of a repository's line, side
/// by side, white on green.
pub uninterp spec fn repository_line(parts: Seq<Seq<char>>) -> tui::widgets::ListItem<'static>;

/// The list item that `tui` builds of the parts of a plain folder's line,
/// side by side, white on black.
pub uninterp spec fn folder_line(parts: Seq<Seq<char>>) -> tui::widgets::ListItem<'static>;

/// The list that `tui` builds of `items` in `block`, from the top left, the
/// highlighted line bold and marked.
pub uninterp spec fn panel_list(
    items: Seq<tui::widgets::ListItem<'static>>,
    block: tui::widgets::Block<'static>,
) -> tui::widgets::List<'static>;

/// The items of a list panel: one for each string, from the last string to
/// the first.
pub open spec fn line_items(items: Seq<String>) -> Seq<tui::widgets::ListItem<'static>> {
    Seq::new(items.len(), |i: int| line_item(items[items.len() - 1 - i]@))
}

/// The item of an entry's line on `width` columns: in the colours of a
/// repository where the entry is one.
pub open spec fn entry_item(entry: EntryView, width: u16) -> tui::widgets::ListItem<
    'static,
> {
    if entry.is_repository {
        repository_line(line_parts(entry, width))
    } else {
        folder_line(line_parts(entry, width))
    }
}

/// Builds a `tui::widgets::Block` without borders, with `Block::default` and
/// `Block::borders`. Nothing is claimed of it.
#[verifier::external_body]
pub fn create_block() -> (block: tui::widgets::Block<'static>) {
    tui::widgets::Block::default().borders(tui::widgets::Borders::NONE)
}

/// Builds a `tui::widgets::Block` with `Block::default`, `Block::borders` and
/// `Block::title`: all borders, and `title` as one `Span::styled` in black on
/// white, bold. These only fill fields, so the block depends on `title` alone.
#[verifier::external_body]
fn build_emphasized_block(title: &str) -> (block: tui::widgets::Block<'static>)
    ensures
        block == emphasized_block(title@),
{
    let style = tui::style::Style::default().bg(tui::style::Color::White).fg(
        tui::style::Color::Black,
    ).add_modifier(tui::style::Modifier::BOLD);
    tui::widgets::Block::default().borders(tui::widgets::Borders::ALL).title(
        tui::text::Spans::from(vec![tui::text::Span::styled(title.to_string(), style)]),
    )
}

/// Builds a `tui::widgets::Block` with `Block::default`, `Block::borders` and
/// `Block::title`: all borders, and `title` as one `Span::styled` in white on
/// black. These only fill fields, so the block depends on `title` alone.
#[verifier::external_body]
fn build_plain_block(title: &str) -> (block: tui::widgets::Block<'static>)
    ensures
        block == plain_block(title@),
{
    let style = tui::style::Style::default().bg(tui::style::Color::Black).fg(
        tui::style::Color::White,
    );
    tui::widgets::Block::default().borders(tui::widgets::Borders::ALL).title(
        tui::text::Spans::from(vec![tui::text::Span::styled(title.to_string(), style)]),
    )
}

/// Builds a `tui::widgets::ListItem` of one line with `ListItem::new` and
/// `Span::raw`. These only fill fields, so the item depends on `line` alone.
#[verifier::external_body]
fn text_item(line: String) -> (item: tui::widgets::ListItem<'static>)
    ensures
        item == line_item(line@),
{
    tui::widgets::ListItem::new(vec![tui::text::Spans::from(vec![tui::text::Span::raw(line)])])
}

/// Builds the `tui::widgets::ListItem` of a repository with `ListItem::new`
/// and `ListItem::style`: one `Span::raw` for each part, white on green. These
/// only fill fields, so the item depends on the parts alone.
#[verifier::external_body]
fn repository_item(parts: Vec<String>) -> (item: tui::widgets::ListItem<'static>)
    ensures
        item == repository_line(parts@.map_values(|part: String| part@)),
{
    let spans: Vec<tui::text::Span<'static>> = parts.into_iter().map(tui::text::Span::raw).collect();
    tui::widgets::ListItem::new(tui::text::Spans::from(spans)).style(
        tui::style::Style::default().fg(tui::style::Color::White).bg(tui::style::Color::Green),
    )
}

/// Builds the `tui::widgets::ListItem` of a plain folder with `ListItem::new`
/// and `ListItem::style`: one `Span::raw` for each part, white on black. These
/// only fill fields, so the item depends on the parts alone.
#[verifier::external_body]
fn folder_item(parts: Vec<String>) -> (item: tui::widgets::ListItem<'static>)
    ensures
        item == folder_line(parts@.map_values(|part: String| part@)),
{
    let spans: Vec<tui::text::Span<'static>> = parts.into_iter().map(tui::text::Span::raw).collect();
    tui::widgets::ListItem::new(tui::text::Spans::from(spans)).style(
        tui::style::Style::default().fg(tui::style::Color::White).bg(tui::style::Color::Black),
    )
}

/// Builds a `tui::widgets::List` of `items` in `block` with `List::new`,
/// `List::block`, `List::start_corner`, `List::highlight_style` and
/// `List::highlight_symbol`: from the top left, the highlighted line bold and
/// marked. These only fill fields, so the list depends on the items and the
/// block alone.
#[verifier::external_body]
fn list_in_block<'a>(items: Vec<tui::widgets::ListItem<'a>>, block: tui::widgets::Block<'a>) -> (list:
    tui::widgets::List<'a>)
    ensures
        list == panel_list(items@, block),
{
    tui::widgets::List::new(items).block(block).start_corner(
        tui::layout::Corner::TopLeft,
    ).highlight_style(
        tui::style::Style::default().add_modifier(tui::style::Modifier::BOLD),
    ).highlight_symbol("> ")
}

/// The lines of a list panel as widgets: one for each item, from the last
/// item to the first.
pub fn convert_to_list_item(items: &Vec<String>) -> (list: Vec<tui::widgets::ListItem<'static>>)
    ensures
        list@ == line_items(items@),
{
    let lines = list_lines(items);
    let mut list: Vec<tui::widgets::ListItem<'static>> = Vec::new();
    let mut i: usize = 0;
    while i < lines.len()
        invariant
            i <= lines.len(),
            list@.len() == i,
            lines@ == items@.reverse(),
            forall|k: int| 0 <= k < i ==> list@[k] == line_item(#[trigger] lines@[k]@),
        decreases lines.len() - i,
    {
        list.push(text_item(lines[i].clone()));
        i += 1;
    }
    assert forall|k: int| 0 <= k < list@.len() implies list@[k] == line_items(items@)[k] by {
        assert(list@[k] == line_item(lines@[k]@));
        assert(lines@[k] == items@[items@.len() - 1 - k]);
    }
    assert(list@ =~= line_items(items@));
    list
}

/// The line of an entry on `width` columns as a widget: in the colours of a
/// repository where it is one.
pub fn convert_entry_to_list_item(entry: &Entry, width: u16) -> (item: tui::widgets::ListItem<
    'static,
>)
    ensures
        item == entry_item(entry@, width),
{
    let parts = entry_line(entry, width);
    if entry.is_repository() {
        repository_item(parts)
    } else {
        folder_item(parts)
    }
}

/// The panel of a list of strings: its lines from the last string to the
/// first, in `block`.
pub fn create_selection_list<'a>(items: &Vec<String>, block: tui::widgets::Block<'a>) -> (list:
    tui::widgets::List<'a>)
    ensures
        list == panel_list(line_items(items@), block),
{
    list_in_block(convert_to_list_item(items), block)
}

/// The frame of the panel of `selection` under its title, the title
/// emphasised where navigation moves in that list.
pub fn create_block_with_title(app: &AppState, selection: Selection) -> (block:
    tui::widgets::Block<'static>)
    ensures
        block == if app@.selection == selection {
            emphasized_block(title_of(selection))
        } else {
            plain_block(title_of(selection))
        },
{
    if app.is_emphasized(selection) {
        build_emphasized_block(panel_title(selection))
    } else {
        build_plain_block(panel_title(selection))
    }
}

} // verus!
