//! The record kept for each child of a directory, and how a listing of
//! children becomes a sequence of records.

use vstd::prelude::*;
use crate::date::{EpochOffset, modified_date, modified_text};

verus! {

/// Whether a child is a directory or anything else.
#[derive(Clone, Copy, Debug, PartialEq, Eq)]
pub enum EntryType {
    File,
    Dir,
}

/// The name shown for each kind of child.
pub open spec fn kind_label(t: EntryType) -> Seq<char> {
    match t {
        EntryType::File => seq!['F', 'i', 'l', 'e'],
        EntryType::Dir => seq!['D', 'i', 'r'],
    }
}

impl EntryType {
    /// The variant's name, as shown in the table and in JSON.
    pub fn name(&self) -> (r: &'static str)
        ensures
            r@ == kind_label(*self),
    {
        match self {
            EntryType::File => {
                proof { reveal_strlit("File"); }
                "File"
            },
            EntryType::Dir => {
                proof { reveal_strlit("Dir"); }
                "Dir"
            },
        }
    }
}

/// One child of a listed directory.
#[derive(Clone, Debug)]
pub struct FileEntry {
    /// Base name of the child.
    pub name: String,
    /// Directory or not.
    pub e_type: EntryType,
    /// Size in bytes, as the operating system reports it.
    pub len_bytes: u64,
    /// Date of the last modification, or empty where it is unknown.
    pub modified: String,
}

/// What a `FileEntry` holds.
pub struct EntryView {
    pub name: Seq<char>,
    pub e_type: EntryType,
    pub len_bytes: u64,
    pub modified: Seq<char>,
}

impl View for FileEntry {
    type V = EntryView;

    open spec fn view(&self) -> EntryView {
        EntryView {
            name: self.name@,
            e_type: self.e_type,
            len_bytes: self.len_bytes,
            modified: self.modified@,
        }
    }
}

/// What the operating system reported of one child whose metadata it could
/// read.
#[derive(Clone, Debug)]
pub struct EntryMeta {
    /// The child's base name, where it decodes as text.
    pub name: Option<String>,
    /// The child is a directory.
    pub is_dir: bool,
    /// Its size in bytes.
    pub len_bytes: u64,
    /// Its modification time, where the system has one.
    pub modified: Option<EpochOffset>,
}

/// What an `EntryMeta` holds.
pub struct MetaView {
    pub name: Option<Seq<char>>,
    pub is_dir: bool,
    pub len_bytes: u64,
    pub modified: Option<EpochOffset>,
}

impl View for EntryMeta {
    type V = MetaView;

    open spec fn view(&self) -> MetaView {
        MetaView {
            name: match self.name {
                Some(n) => Some(n@),
                None => None,
            },
            is_dir: self.is_dir,
            len_bytes: self.len_bytes,
            modified: self.modified,
        }
    }
}

/// The name given to a child whose own name does not decode as text.
pub open spec fn unknown_name() -> Seq<char> {
    "unknown name"@
}

/// The record made of one child's metadata.
pub open spec fn record_of(m: MetaView) -> EntryView {
    EntryView {
        name: match m.name {
            Some(n) => n,
            None => unknown_name(),
        },
        e_type: if m.is_dir {
            EntryType::Dir
        } else {
            EntryType::File
        },
        len_bytes: m.len_bytes,
        modified: modified_text(m.modified),
    }
}

/// The records made of a listing, in its order: one for each child whose
/// metadata was read (`Some`), none for the others.
pub open spec fn records_of(listing: Seq<Option<MetaView>>) -> Seq<EntryView>
    decreases listing.len(),
{
    if listing.len() == 0 {
        seq![]
    } else {
        records_of(listing.drop_last()) + match listing.last() {
            Some(m) => seq![record_of(m)],
            None => seq![],
        }
    }
}

/// The view of each item of a listing.
pub open spec fn listing_view(listing: Seq<Option<EntryMeta>>) -> Seq<Option<MetaView>> {
    listing.map_values(|o: Option<EntryMeta>| match o {
        Some(m) => Some(m@),
        None => None,
    })
}

/// The view of each record of a sequence.
pub open spec fn entries_view(entries: Seq<FileEntry>) -> Seq<EntryView> {
    entries.map_values(|e: FileEntry| e@)
}

/// Builds the record of one child from its metadata.
pub fn make_entry(meta: EntryMeta) -> (r: FileEntry)
    ensures
        r@ == record_of(meta@),
        r.e_type == (if meta.is_dir {
            EntryType::Dir
        } else {
            EntryType::File
        }),
{
    let name = match meta.name {
        Some(n) => n,
        None => {
            proof { reveal_strlit("unknown name"); }
            String::from_str("unknown name")
        },
    };
    let e_type = if meta.is_dir {
        EntryType::Dir
    } else {
        EntryType::File
    };
    FileEntry { name, e_type, len_bytes: meta.len_bytes, modified: modified_date(meta.modified) }
}

/// Adds the record of one child to `data` where its metadata could be read
/// (`Some`), and leaves `data` as it was otherwise.
pub fn get_meta(meta: Option<EntryMeta>, data: &mut Vec<FileEntry>)
    ensures
        meta matches Some(m) ==> entries_view(final(data)@) == entries_view(old(data)@).push(
            record_of(m@),
        ),
        meta is None ==> final(data)@ == old(data)@,
{
    match meta {
        Some(m) => {
            let e = make_entry(m);
            data.push(e);
            proof {
                assert(entries_view(final(data)@) =~= entries_view(old(data)@).push(record_of(m@)));
            }
        },
        None => {},
    }
}

/// The records of a directory listing: `listing` holds one item per child
/// that the directory read yielded, `None` where its metadata could not be
/// read. The records keep the listing's order.
pub fn get_files(listing: Vec<Option<EntryMeta>>) -> (r: Vec<FileEntry>)
    ensures
        entries_view(r@) == records_of(listing_view(listing@)),
{
    let mut data: Vec<FileEntry> = Vec::new();
    let n = listing.len();
    let mut rest = listing;
    let mut i: usize = 0;
    while i < n
        invariant
            i <= n,
            n == listing@.len(),
            rest@ == listing@.skip(i as int),
            entries_view(data@) == records_of(listing_view(listing@.take(i as int))),
        decreases n - i,
    {
        let item = rest.remove(0);
        proof {
            let lv = listing_view(listing@.take(i + 1));
            assert(lv.drop_last() =~= listing_view(listing@.take(i as int)));
        }
        get_meta(item, &mut data);
        i = i + 1;
    }
    proof {
        assert(listing@.take(n as int) =~= listing@);
    }
    data
}

/// Reading a listing piece by piece gives the records of the pieces, one
/// after the other.
pub proof fn lemma_records_concat(a: Seq<Option<MetaView>>, b: Seq<Option<MetaView>>)
    ensures
        records_of(a + b) == records_of(a) + records_of(b),
    decreases b.len(),
{
    if b.len() == 0 {
        assert(a + b =~= a);
        assert(records_of(b) =~= seq![]);
        assert(records_of(a) + records_of(b) =~= records_of(a));
    } else {
        lemma_records_concat(a, b.drop_last());
        assert((a + b).drop_last() =~= a + b.drop_last());
        assert((a + b).last() == b.last());
        assert(records_of(a + b) =~= records_of(a) + records_of(b));
    }
}

/// Where the metadata of every child was read, the listing gives exactly one
/// record per child, in order, made of that child's metadata and carrying
/// its name wherever the name decodes as text.
pub proof fn lemma_one_record_per_child(listing: Seq<Option<MetaView>>)
    requires
        forall|i: int| 0 <= i < listing.len() ==> listing[i] is Some,
    ensures
        records_of(listing).len() == listing.len(),
        forall|i: int|
            0 <= i < listing.len() ==> records_of(listing)[i] == record_of(listing[i]->0),
        forall|i: int|
            0 <= i < listing.len() && listing[i]->0.name is Some ==> records_of(listing)[i].name
                == listing[i]->0.name->0,
    decreases listing.len(),
{
    if listing.len() > 0 {
        let init = listing.drop_last();
        lemma_one_record_per_child(init);
        assert(records_of(listing) =~= records_of(init) + seq![record_of(listing.last()->0)]);
    }
}

/// A child whose name does not decode as text still gets a record, named
/// `unknown_name()`, and the children around it keep theirs.
pub proof fn lemma_undecodable_name_kept(
    before: Seq<Option<MetaView>>,
    child: MetaView,
    after: Seq<Option<MetaView>>,
)
    requires
        child.name is None,
    ensures
        records_of(before + seq![Some(child)] + after) == records_of(before) + seq![
            record_of(child),
        ] + records_of(after),
        record_of(child).name == unknown_name(),
{
    lemma_records_concat(before, seq![Some(child)]);
    lemma_records_concat(before + seq![Some(child)], after);
    assert(seq![Some(child)].drop_last() =~= Seq::<Option<MetaView>>::empty());
    assert(records_of(Seq::<Option<MetaView>>::empty()) =~= seq![]);
    assert(records_of(seq![Some(child)]) =~= seq![record_of(child)]);
}

} // verus!
