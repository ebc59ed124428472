//! The JSON form of a listing: an array with one object per record.

use vstd::prelude::*;
use crate::entry::{EntryView, FileEntry, entries_view, kind_label};
use crate::text::{decimal, decimal_text};

verus! {

#[verifier::external_type_specification]
#[verifier::external_body]
pub struct ExJsonError(serde_json::Error);

/// The JSON string literal that serde_json writes for a text, or nothing
/// where it reports an error.
pub uninterp spec fn json_string_of(s: Seq<char>) -> Option<Seq<char>>;

/// Relies on `serde_json::to_string` applied to a `str`: the quoted and
/// escaped JSON string, or serde_json's error.
#[verifier::external_body]
fn json_string(s: &str) -> (r: Result<String, serde_json::Error>)
    ensures
        r matches Ok(t) ==> json_string_of(s@) == Some(t@),
        r is Err ==> json_string_of(s@) is None,
{
    serde_json::to_string(s)
}

/// The JSON object of one record: its four fields under their own names,
/// in the record's order, the size as a bare decimal number.
pub open spec fn json_object(e: EntryView) -> Option<Seq<char>> {
    match (
        json_string_of(e.name),
        json_string_of(kind_label(e.e_type)),
        json_string_of(e.modified),
    ) {
        (Some(n), Some(t), Some(m)) => Some(
            "{\"name\":"@ + n + ",\"e_type\":"@ + t + ",\"len_bytes\":"@ + decimal(
                e.len_bytes as nat,
            ) + ",\"modified\":"@ + m + "}"@,
        ),
        _ => None,
    }
}

/// The objects of a sequence of records, separated by commas; nothing where
/// one of them cannot be written.
pub open spec fn json_items(es: Seq<EntryView>) -> Option<Seq<char>>
    decreases es.len(),
{
    if es.len() == 0 {
        Some(seq![])
    } else {
        match (json_items(es.drop_last()), json_object(es.last())) {
            (Some(a), Some(o)) => Some(
                if es.len() == 1 {
                    o
                } else {
                    a + ","@ + o
                },
            ),
            _ => None,
        }
    }
}

/// The JSON array of a sequence of records.
pub open spec fn json_array(es: Seq<EntryView>) -> Option<Seq<char>> {
    match json_items(es) {
        Some(b) => Some("["@ + b + "]"@),
        None => None,
    }
}

/// The text printed in place of the array where it cannot be written.
pub open spec fn json_failure() -> Seq<char> {
    "Cannot parse JSON"@
}

/// The JSON document of a listing, or the fixed failure text.
pub open spec fn json_document(es: Seq<EntryView>) -> Seq<char> {
    match json_array(es) {
        Some(t) => t,
        None => json_failure(),
    }
}

/// Writes one record as a JSON object.
pub fn entry_json(e: &FileEntry) -> (r: Option<String>)
    ensures
        r.deep_view() == json_object(e@),
{
    let name = json_string(e.name.as_str());
    let kind = json_string(e.e_type.name());
    let modified = json_string(e.modified.as_str());
    match (name, kind, modified) {
        (Ok(n), Ok(t), Ok(m)) => {
            let mut s = String::from_str("{\"name\":");
            s.append(n.as_str());
            s.append(",\"e_type\":");
            s.append(t.as_str());
            s.append(",\"len_bytes\":");
            let size = decimal_text(e.len_bytes);
            s.append(size.as_str());
            s.append(",\"modified\":");
            s.append(m.as_str());
            s.append("}");
            Some(s)
        },
        _ => None,
    }
}

/// Writes a listing as a JSON array of objects, one per record in order;
/// where a field cannot be written, gives the fixed failure text instead.
pub fn entries_json(entries: &Vec<FileEntry>) -> (r: String)
    ensures
        r@ == json_document(entries_view(entries@)),
{
    let ghost es = entries_view(entries@);
    let mut body = String::new();
    let mut i: usize = 0;
    while i < entries.len()
        invariant
            i <= entries@.len(),
            es == entries_view(entries@),
            json_items(es.take(i as int)) == Some(body@),
        decreases entries@.len() - i,
    {
        proof {
            assert(es.take(i + 1).drop_last() =~= es.take(i as int));
        }
        match entry_json(&entries[i]) {
            Some(o) => {
                if i > 0 {
                    body.append(",");
                }
                body.append(o.as_str());
            },
            None => {
                proof {
                    assert(json_items(es.take(i + 1)) is None);
                    lemma_items_fail_on(es, i + 1);
                }
                return String::from_str("Cannot parse JSON");
            },
        }
        i = i + 1;
    }
    proof {
        assert(es.take(entries@.len() as int) =~= es);
    }
    let mut doc = String::from_str("[");
    doc.append(body.as_str());
    doc.append("]");
    doc
}

/// Once a prefix of records cannot be written, no longer prefix can.
proof fn lemma_items_fail_on(es: Seq<EntryView>, k: int)
    requires
        0 <= k <= es.len(),
        json_items(es.take(k)) is None,
    ensures
        json_items(es) is None,
    decreases es.len() - k,
{
    if k < es.len() {
        assert(es.take(k + 1).drop_last() =~= es.take(k));
        lemma_items_fail_on(es, k + 1);
    } else {
        assert(es.take(k) =~= es);
    }
}

} // verus!
