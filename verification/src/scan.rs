//! Sorting the entries of a directory walk into an import set.

use vstd::prelude::*;
use crate::category::MediaCategory;
use crate::classify::{classify, kind_of_entry, text_view};
use crate::import_set::{lemma_pushed_contains, Buckets, ImportSet};
use crate::path::has_file_name;

verus! {

/// What a directory walk found at one place.
#[derive(Debug, PartialEq, Eq)]
pub enum ScanEntry {
    /// An entry that could not be read: it is passed over, and counted.
    Unreadable,
    /// An entry with its path, whether it is a regular file, and the MIME type
    /// found in its content, `None` where the content could not be read.
    Found { path: String, is_regular_file: bool, sniffed: Option<String> },
}

/// The characters of a string that may be missing.
pub open spec fn string_view(text: Option<String>) -> Option<Seq<char>> {
    match text {
        Some(t) => Some(t@),
        None => None,
    }
}

impl ScanEntry {
    /// Whether the entry is a regular file: only those are classified.
    pub open spec fn is_regular_file(self) -> bool {
        self matches ScanEntry::Found { is_regular_file, .. } && is_regular_file
    }

    /// The kind of the entry, if it has one.
    pub open spec fn kind(self) -> Option<MediaCategory> {
        match self {
            ScanEntry::Unreadable => None,
            ScanEntry::Found { path, is_regular_file, sniffed } => kind_of_entry(
                is_regular_file,
                string_view(sniffed),
                path@,
            ),
        }
    }

    /// The path of the entry: empty for one that could not be read.
    pub open spec fn path(self) -> Seq<char> {
        match self {
            ScanEntry::Unreadable => Seq::empty(),
            ScanEntry::Found { path, .. } => path@,
        }
    }

    /// Whether the entry is a regular file without a kind.
    pub open spec fn is_unclassified(self) -> bool {
        self.is_regular_file() && self.kind() is None
    }
}

/// How many of the entries meet a condition.
pub open spec fn count(entries: Seq<ScanEntry>, counted: spec_fn(ScanEntry) -> bool) -> nat
    decreases entries.len(),
{
    if entries.len() == 0 {
        0
    } else {
        count(entries.drop_last(), counted) + if counted(entries.last()) {
            1nat
        } else {
            0nat
        }
    }
}

/// The import set that the entries give: each entry with a kind is added under
/// that kind, in the order of the walk, and no other entry is added.
pub open spec fn scanned_buckets(entries: Seq<ScanEntry>) -> Buckets
    decreases entries.len(),
{
    if entries.len() == 0 {
        Buckets::empty()
    } else {
        let before = scanned_buckets(entries.drop_last());
        match entries.last().kind() {
            Some(category) => before.add(entries.last().path(), category),
            None => before,
        }
    }
}

/// The number of regular files among the entries.
pub open spec fn regular_files(entries: Seq<ScanEntry>) -> nat {
    count(entries, |e: ScanEntry| e.is_regular_file())
}

/// The number of regular files without a kind among the entries.
pub open spec fn unclassified_files(entries: Seq<ScanEntry>) -> nat {
    count(entries, |e: ScanEntry| e.is_unclassified())
}

/// The number of entries that could not be read.
pub open spec fn unreadable_entries(entries: Seq<ScanEntry>) -> nat {
    count(entries, |e: ScanEntry| e is Unreadable)
}

/// What a scan gives: the import set, and how many entries were left out.
pub struct ScanResult {
    /// The files with a kind.
    pub imports: ImportSet,
    /// The number of regular files among the entries.
    pub scanned: usize,
    /// The number of regular files without a kind.
    pub unclassified: usize,
    /// The number of entries that could not be read.
    pub unreadable: usize,
}

/// Sorts the entries of a directory walk. Every regular file is classified:
/// one with a kind is added to the import set, one without is counted. An
/// entry that could not be read is counted and passed over, and never ends
/// the scan.
pub fn scan(entries: &Vec<ScanEntry>) -> (result: ScanResult)
    ensures
        result.imports@ == scanned_buckets(entries@),
        result.scanned == regular_files(entries@),
        result.unclassified == unclassified_files(entries@),
        result.unreadable == unreadable_entries(entries@),
        result.scanned == result.unclassified + result.imports@.in_order().len(),
        distinct_paths(entries@) ==> result.imports@.partitioned(),
{
    proof {
        law_scan_accounts_for_every_file(entries@);
        if distinct_paths(entries@) {
            law_scan_partitions(entries@);
        }
    }
    let mut imports = ImportSet::new();
    let mut scanned: usize = 0;
    let mut unclassified: usize = 0;
    let mut unreadable: usize = 0;
    let mut i: usize = 0;
    while i < entries.len()
        invariant
            i <= entries.len(),
            imports@ == scanned_buckets(entries@.take(i as int)),
            scanned == regular_files(entries@.take(i as int)),
            unclassified == unclassified_files(entries@.take(i as int)),
            unreadable == unreadable_entries(entries@.take(i as int)),
            scanned <= i,
            unclassified <= i,
            unreadable <= i,
        decreases entries.len() - i,
    {
        assert(entries@.take(i + 1).drop_last() == entries@.take(i as int));
        assert(entries@.take(i + 1).last() == entries@[i as int]);
        match &entries[i] {
            ScanEntry::Unreadable => {
                unreadable += 1;
            },
            ScanEntry::Found { path, is_regular_file, sniffed } => {
                let content = match sniffed {
                    Some(text) => Some(text.as_str()),
                    None => None,
                };
                assert(text_view(content) == string_view(*sniffed));
                if *is_regular_file {
                    scanned += 1;
                }
                match classify(*is_regular_file, content, path.as_str()) {
                    Some(category) => {
                        imports.add(path.clone(), category);
                    },
                    None => {
                        if *is_regular_file {
                            unclassified += 1;
                        }
                    },
                }
            },
        }
        i += 1;
    }
    assert(entries@.take(entries.len() as int) == entries@);
    ScanResult { imports, scanned, unclassified, unreadable }
}

/// A path is in a bucket of the import set if and only if the walk found an
/// entry of that path and that kind: an entry without a kind is never added.
pub proof fn law_members_are_the_classified(
    entries: Seq<ScanEntry>,
    path: Seq<char>,
    category: MediaCategory,
)
    ensures
        scanned_buckets(entries).members(category).contains(path) <==> exists|i: int|
            0 <= i < entries.len() && (#[trigger] entries[i]).path() == path && entries[i].kind()
                == Some(category),
    decreases entries.len(),
{
    if entries.len() == 0 {
        assert(!Seq::<Seq<char>>::empty().contains(path));
    } else {
        let front = entries.drop_last();
        let last = entries.last();
        let before = scanned_buckets(front);
        law_members_are_the_classified(front, path, category);
        if last.kind() == Some(category) {
            lemma_pushed_contains(before.members(category), last.path(), path);
        }
        if scanned_buckets(entries).members(category).contains(path) {
            if before.members(category).contains(path) {
                let i = choose|i: int|
                    0 <= i < front.len() && (#[trigger] front[i]).path() == path && front[i].kind()
                        == Some(category);
                assert(entries[i] == front[i]);
            } else {
                assert(entries[entries.len() - 1] == last);
            }
        }
        if exists|i: int|
            0 <= i < entries.len() && (#[trigger] entries[i]).path() == path && entries[i].kind()
                == Some(category) {
            let i = choose|i: int|
                0 <= i < entries.len() && (#[trigger] entries[i]).path() == path
                    && entries[i].kind() == Some(category);
            if i < front.len() {
                assert(front[i] == entries[i]);
            }
        }
    }
}

/// Whether no two entries have the same path, as in a walk of a directory tree.
pub open spec fn distinct_paths(entries: Seq<ScanEntry>) -> bool {
    forall|i: int, j: int|
        0 <= i < j < entries.len() ==> (#[trigger] entries[i]).path() != (#[trigger] entries[j]).path()
}

/// Where no two entries have the same path, no path is in two buckets.
pub proof fn law_scan_partitions(entries: Seq<ScanEntry>)
    requires
        distinct_paths(entries),
    ensures
        scanned_buckets(entries).partitioned(),
{
    let set = scanned_buckets(entries);
    assert forall|path: Seq<char>, a: MediaCategory, b: MediaCategory|
        set.members(a).contains(path) && set.members(b).contains(path) implies a == b by {
        law_members_are_the_classified(entries, path, a);
        law_members_are_the_classified(entries, path, b);
        let i = choose|i: int|
            0 <= i < entries.len() && (#[trigger] entries[i]).path() == path && entries[i].kind()
                == Some(a);
        let j = choose|j: int|
            0 <= j < entries.len() && (#[trigger] entries[j]).path() == path && entries[j].kind()
                == Some(b);
        assert(i == j);
    }
}

/// Every file of the import set has a file name.
pub proof fn law_members_have_names(entries: Seq<ScanEntry>, path: Seq<char>)
    requires
        scanned_buckets(entries).contains(path),
    ensures
        has_file_name(path),
{
    law_members_are_the_classified(entries, path, MediaCategory::Audio);
    law_members_are_the_classified(entries, path, MediaCategory::Image);
    law_members_are_the_classified(entries, path, MediaCategory::Video);
}

/// Every regular file is either in the import set or counted as unclassified.
pub proof fn law_scan_accounts_for_every_file(entries: Seq<ScanEntry>)
    ensures
        regular_files(entries) == unclassified_files(entries) + scanned_buckets(
            entries,
        ).in_order().len(),
    decreases entries.len(),
{
    if entries.len() > 0 {
        law_scan_accounts_for_every_file(entries.drop_last());
    }
}

} // verus!
