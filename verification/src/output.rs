//! The whole output of one invocation: the tables of the categories that the
//! flags show, one section each.

use vstd::prelude::*;
use vstd::string::*;

use crate::category::Category;
use crate::registry::Registry;
use crate::selection::{select_categories, selection, Args};
use crate::shortcut::Entry;
use crate::table::{format_table, table_of};

verus! {

/// What ends a section: the line feed that ends the table's last line, and
/// one more for a blank line.
pub open spec fn section_end() -> Seq<char> {
    seq!['\n', '\n']
}

/// The section of a category: its table, then the blank line.
pub open spec fn section_of(entries: Seq<Entry>, category: Category) -> Seq<char> {
    table_of(entries, category.spec_name()) + section_end()
}

/// The sections of the given categories, one after the other.
pub open spec fn sections(registry: Registry, shown: Seq<Category>) -> Seq<char>
    decreases shown.len(),
{
    if shown.len() == 0 {
        Seq::empty()
    } else {
        sections(registry, shown.drop_last()) + section_of(
            registry.entries(shown.last()),
            shown.last(),
        )
    }
}

/// The output for the given flags: the sections of the categories that the
/// flags show, in display order.
pub open spec fn output_of(args: Args, registry: Registry) -> Seq<char> {
    sections(registry, selection(args))
}

/// Appends a table to the output, and the blank line that ends its section.
pub fn push_section(output: &mut String, table: &str)
    ensures
        final(output)@ == old(output)@ + table@ + section_end(),
{
    proof {
        reveal_strlit("\n\n");
    }
    output.append(table);
    output.append("\n\n");
    assert("\n\n"@ =~= section_end());
}

/// Builds the output for the given flags: the table of every category that
/// the flags show, in display order, each followed by a blank line. With no
/// category flag set, every category is shown.
pub fn build_output(args: &Args, shortcuts: &Registry) -> (output: String)
    ensures
        output@ == output_of(*args, *shortcuts),
{
    let shown = select_categories(args);
    let mut output = String::new();
    let mut i: usize = 0;
    while i < shown.len()
        invariant
            i <= shown@.len(),
            output@ == sections(*shortcuts, shown@.take(i as int)),
        decreases shown@.len() - i,
    {
        let category = shown[i];
        let table = format_table(shortcuts.shortcuts(category).as_slice(), category.name());
        push_section(&mut output, table.as_str());
        proof {
            let next = shown@.take(i + 1);
            assert(next.drop_last() =~= shown@.take(i as int));
            assert(next.last() == category);
        }
        i += 1;
    }
    assert(shown@.take(i as int) =~= shown@);
    output
}

} // verus!
