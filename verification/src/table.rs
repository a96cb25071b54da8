//! Laying a category out as a text table.
//!
//! The layout itself is the work of the `tabled` crate. This module decides
//! what goes into the table: the title, the rows, the wrapped descriptions
//! and the width of the description column.

use tabled::builder::Builder;
use tabled::settings::object::{Columns, Rows};
use tabled::settings::{Modify, Panel, Remove, Style, Width};
use vstd::prelude::*;
use vstd::string::*;

use crate::shortcut::{entries_of, Entry, Shortcut};
use crate::wrap::{wrap_text, wrapped};

verus! {

/// The width of the description column, in characters. Shorter descriptions
/// are padded to it, longer ones are wrapped to it.
pub const DESCRIPTION_WIDTH: usize = 57;

/// The text that `tabled` lays out for a table: `records` are its rows of
/// cells, the first of them the heading row, `title` is the line above the
/// rows, and `min_width` is the least width of the first column. The text
/// shows the title and every row but the heading row.
pub uninterp spec fn table_text(
    records: Seq<Seq<Seq<char>>>,
    title: Seq<char>,
    min_width: nat,
) -> Seq<char>;

/// The cells of the given rows, as texts.
pub open spec fn cells_of(records: Seq<Vec<String>>) -> Seq<Seq<Seq<char>>> {
    records.map_values(|row: Vec<String>| row@.map_values(|cell: String| cell@))
}

/// Lays a table out with `tabled`.
///
/// Calls `Builder::from` and `Builder::build` on the records, then
/// `Table::with` four times: with `Width::increase` on `Columns::first`, with
/// `Style::blank`, with `Panel::header`, and with `Remove::row` on the row
/// below the header, which is the heading row. The result is what
/// `to_string` gives for that table.
///
/// Taken on trust: that this text depends on the cells, the title and the
/// width alone, and that `tabled` lays out any such table of two columns
/// without failing.
#[verifier::external_body]
fn lay_out(records: Vec<Vec<String>>, title: &str, min_width: usize) -> (text: String)
    requires
        records@.len() >= 1,
        forall|i: int| 0 <= i < records@.len() ==> (#[trigger] records@[i])@.len() == 2,
        min_width <= u16::MAX,
    ensures
        text@ == table_text(cells_of(records@), title@, min_width as nat),
{
    Builder::from(records)
        .build()
        .with(Modify::new(Columns::first()).with(Width::increase(min_width)))
        .with(Style::blank())
        .with(Panel::header(title))
        .with(Remove::row(Rows::one(1)))
        .to_string()
}

/// The title of a category's table.
pub open spec fn title_of(category: Seq<char>) -> Seq<char> {
    category + " related shortcuts"@
}

/// The heading row: the names of the two columns.
pub open spec fn heading() -> Seq<Seq<char>> {
    seq!["description"@, "key"@]
}

/// The row of an entry: its description, wrapped to the column's width, and
/// then its trigger.
pub open spec fn row_of(entry: Entry) -> Seq<Seq<char>> {
    seq![wrapped(entry.description, DESCRIPTION_WIDTH as nat), entry.trigger]
}

/// The rows of a category's table: the heading row, then one row for each
/// entry, in the order of the entries.
pub open spec fn records_of(entries: Seq<Entry>) -> Seq<Seq<Seq<char>>> {
    seq![heading()] + entries.map_values(|entry: Entry| row_of(entry))
}

/// The table of a category: what `tabled` lays out for its title and rows.
pub open spec fn table_of(entries: Seq<Entry>, category: Seq<char>) -> Seq<char> {
    table_text(records_of(entries), title_of(category), DESCRIPTION_WIDTH as nat)
}

/// Formats the shortcuts of a category as a table: a title line that names
/// the category, then one row for each shortcut, in the order given. A
/// category without shortcuts gives the title line alone.
pub fn format_table(shortcuts: &[Shortcut], category: &str) -> (table: String)
    ensures
        table@ == table_of(entries_of(shortcuts@), category@),
{
    let mut records: Vec<Vec<String>> = Vec::new();
    let mut names: Vec<String> = Vec::new();
    names.push("description".to_owned());
    names.push("key".to_owned());
    records.push(names);
    let count = shortcuts.len();
    let mut i: usize = 0;
    while i < count
        invariant
            count == shortcuts@.len(),
            i <= count,
            records@.len() == i + 1,
            forall|k: int| 0 <= k < records@.len() ==> (#[trigger] records@[k])@.len() == 2,
            records@[0]@[0]@ == "description"@,
            records@[0]@[1]@ == "key"@,
            forall|k: int|
                0 <= k < i ==> {
                    &&& (#[trigger] records@[k + 1])@[0]@ == wrapped(
                        shortcuts@[k]@.description,
                        DESCRIPTION_WIDTH as nat,
                    )
                    &&& records@[k + 1]@[1]@ == shortcuts@[k]@.trigger
                },
        decreases count - i,
    {
        let shortcut = &shortcuts[i];
        let mut row: Vec<String> = Vec::new();
        row.push(wrap_text(shortcut.description, DESCRIPTION_WIDTH));
        row.push(shortcut.key.to_owned());
        records.push(row);
        i += 1;
    }
    let mut title = category.to_owned();
    title.append(" related shortcuts");
    proof {
        let cells = cells_of(records@);
        let wanted = records_of(entries_of(shortcuts@));
        assert(cells.len() == wanted.len());
        assert forall|k: int| 0 <= k < cells.len() implies cells[k] == wanted[k] by {
            assert(records@[k]@.len() == 2);
            if k > 0 {
                assert(records@[(k - 1) + 1]@[0]@ == row_of(shortcuts@[k - 1]@)[0]);
                assert(wanted[k] == row_of(entries_of(shortcuts@)[k - 1]));
            }
            assert(cells[k] =~= wanted[k]);
        }
        assert(cells =~= wanted);
    }
    lay_out(records, title.as_str(), DESCRIPTION_WIDTH)
}

/// The same shortcuts under the same category always give the same table:
/// two texts that `format_table` may return for them are equal, character
/// for character.
pub proof fn lemma_table_is_determined(
    entries: Seq<Entry>,
    category: Seq<char>,
    first: Seq<char>,
    second: Seq<char>,
)
    requires
        first == table_of(entries, category),
        second == table_of(entries, category),
    ensures
        first == second,
{
}

} // verus!
