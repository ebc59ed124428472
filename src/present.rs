//! What a run shows: a notice where the target path is missing or cannot be
//! checked, else the listing in exactly one of its two forms.

use vstd::prelude::*;
use crate::entry::{FileEntry, entries_view};
use crate::json::{entries_json, json_document};
use crate::table::{display_table, rendered_table, table_rows_of};
use owo_colors::OwoColorize;

verus! {

/// The outcome of asking whether the target path exists.
#[derive(Clone, Copy, Debug, PartialEq, Eq)]
pub enum PathCheck {
    /// The path exists.
    Present,
    /// The path does not exist.
    Absent,
    /// The question itself failed.
    Failed,
}

/// What a run does once the path has been checked.
#[derive(Clone, Debug)]
pub enum Plan {
    /// List the directory and show the listing.
    Collect,
    /// Show this notice and nothing else.
    Report(String),
}

/// The escape code that turns the terminal's foreground red.
pub open spec fn red_on() -> Seq<char> {
    seq!['\u{1b}', '[', '3', '1', 'm']
}

/// The escape code that turns the foreground back to its default.
pub open spec fn red_off() -> Seq<char> {
    seq!['\u{1b}', '[', '3', '9', 'm']
}

/// A text shown in red.
pub open spec fn in_red(s: Seq<char>) -> Seq<char> {
    red_on() + s + red_off()
}

/// Relies on owo_colors's `OwoColorize::red` and the `Display` of what it
/// returns: the text between `ESC[31m` and `ESC[39m`.
#[verifier::external_body]
fn paint_red(s: &str) -> (r: String)
    ensures
        r@ == in_red(s@),
{
    s.red().to_string()
}

/// The notice for a path that does not exist.
pub open spec fn missing_notice() -> Seq<char> {
    "Path does not exist."@
}

/// The notice for a path whose existence could not be checked.
pub open spec fn check_failed_notice() -> Seq<char> {
    "Error reading directory."@
}

/// Decides what a run does after checking the target path: it lists the
/// directory only where the path exists, and otherwise shows the matching
/// notice in red.
pub fn plan(check: PathCheck) -> (r: Plan)
    ensures
        r is Collect <==> check == PathCheck::Present,
        check == PathCheck::Absent ==> (r matches Plan::Report(m) && m@ == in_red(
            missing_notice(),
        )),
        check == PathCheck::Failed ==> (r matches Plan::Report(m) && m@ == in_red(
            check_failed_notice(),
        )),
{
    match check {
        PathCheck::Present => Plan::Collect,
        PathCheck::Absent => Plan::Report(paint_red("Path does not exist.")),
        PathCheck::Failed => Plan::Report(paint_red("Error reading directory.")),
    }
}

/// Shows a listing: as a JSON document where `json` is set, as a table
/// otherwise, never both.
pub fn render(entries: &Vec<FileEntry>, json: bool) -> (r: String)
    ensures
        json ==> r@ == json_document(entries_view(entries@)),
        !json ==> r@ == rendered_table(table_rows_of(entries_view(entries@))),
{
    if json {
        entries_json(entries)
    } else {
        display_table(entries)
    }
}

} // verus!
