//! The table form of a listing: a header row, then one row per record.

use vstd::prelude::*;
use crate::entry::{EntryView, FileEntry, entries_view, kind_label};
use crate::text::{decimal, decimal_text};
use tabled::builder::Builder;
use tabled::settings::object::{Columns, Rows};
use tabled::settings::{Color, Style};

verus! {

/// The column titles, in order.
pub open spec fn header_row() -> Seq<Seq<char>> {
    seq!["Name"@, "Type"@, "Size"@, "Modified"@]
}

/// The cells of one record, under the titles of `header_row`.
pub open spec fn entry_row(e: EntryView) -> Seq<Seq<char>> {
    seq![e.name, kind_label(e.e_type), decimal(e.len_bytes as nat), e.modified]
}

/// The rows of the table of a listing: the header, then each record's row
/// in the listing's order.
pub open spec fn table_rows_of(es: Seq<EntryView>) -> Seq<Seq<Seq<char>>> {
    seq![header_row()] + es.map_values(|e: EntryView| entry_row(e))
}

/// The text that tabled draws for these rows, with rounded borders and
/// coloured titles, names, sizes and dates.
pub uninterp spec fn rendered_table(rows: Seq<Seq<Seq<char>>>) -> Seq<char>;

/// Relies on tabled: `Builder::from` and `build` lay the rows out as a
/// table, `Style::rounded` rounds its borders, `modify` with `Color` tints
/// the first row and the first, third and fourth columns, and `Display`
/// draws it. The drawing depends on the rows alone.
#[verifier::external_body]
fn draw_table(rows: Vec<Vec<String>>) -> (r: String)
    ensures
        r@ == rendered_table(rows.deep_view()),
{
    let mut table = Builder::from(rows).build();
    table.with(Style::rounded());
    table.modify(Columns::first(), Color::FG_BRIGHT_CYAN);
    table.modify(Columns::single(2), Color::FG_BRIGHT_MAGENTA);
    table.modify(Columns::single(3), Color::FG_BRIGHT_YELLOW);
    table.modify(Rows::first(), Color::FG_BRIGHT_GREEN);
    table.to_string()
}

/// The cells of one record.
pub fn entry_cells(e: &FileEntry) -> (r: Vec<String>)
    ensures
        r.deep_view() == entry_row(e@),
{
    let mut row: Vec<String> = Vec::new();
    row.push(e.name.clone());
    row.push(String::from_str(e.e_type.name()));
    row.push(decimal_text(e.len_bytes));
    row.push(e.modified.clone());
    proof {
        assert(row.deep_view() =~= entry_row(e@));
    }
    row
}

/// The rows of the table of a listing, header first.
pub fn table_rows(entries: &Vec<FileEntry>) -> (r: Vec<Vec<String>>)
    ensures
        r.deep_view() == table_rows_of(entries_view(entries@)),
        r@.len() == entries@.len() + 1,
{
    let ghost es = entries_view(entries@);
    let mut header: Vec<String> = Vec::new();
    header.push(String::from_str("Name"));
    header.push(String::from_str("Type"));
    header.push(String::from_str("Size"));
    header.push(String::from_str("Modified"));
    let mut rows: Vec<Vec<String>> = Vec::new();
    rows.push(header);
    proof {
        assert(rows.deep_view() =~~= table_rows_of(es.take(0)));
    }
    let mut i: usize = 0;
    while i < entries.len()
        invariant
            i <= entries@.len(),
            es == entries_view(entries@),
            rows.deep_view() == table_rows_of(es.take(i as int)),
        decreases entries@.len() - i,
    {
        let row = entry_cells(&entries[i]);
        let ghost before = rows.deep_view();
        let ghost cells = row.deep_view();
        rows.push(row);
        proof {
            assert(rows.deep_view() =~= before.push(cells));
            assert(es.take(i + 1) =~= es.take(i as int).push(es[i as int]));
            assert(table_rows_of(es.take(i + 1)) =~= table_rows_of(es.take(i as int)).push(
                entry_row(es[i as int]),
            ));
        }
        i = i + 1;
    }
    proof {
        assert(es.take(entries@.len() as int) =~= es);
        assert(rows.deep_view().len() == rows@.len());
    }
    rows
}

/// Draws a listing as a table: a header row, then one row per record.
pub fn display_table(entries: &Vec<FileEntry>) -> (r: String)
    ensures
        r@ == rendered_table(table_rows_of(entries_view(entries@))),
{
    draw_table(table_rows(entries))
}

} // verus!
