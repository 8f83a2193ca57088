//! The files found by a scan, kept apart by kind.

use vstd::prelude::*;
use crate::category::MediaCategory;
use crate::classify::{classify_media, kind_of_media};
use crate::mime_type::MediaType;

verus! {

/// What an import set holds: for each kind the paths added under it, in the
/// order in which they were added.
pub struct Buckets {
    pub audio: Seq<Seq<char>>,
    pub images: Seq<Seq<char>>,
    pub videos: Seq<Seq<char>>,
}

impl Buckets {
    /// The buckets of a new set.
    pub open spec fn empty() -> Buckets {
        Buckets { audio: Seq::empty(), images: Seq::empty(), videos: Seq::empty() }
    }

    /// The paths of one kind.
    pub open spec fn members(self, category: MediaCategory) -> Seq<Seq<char>> {
        match category {
            MediaCategory::Audio => self.audio,
            MediaCategory::Image => self.images,
            MediaCategory::Video => self.videos,
        }
    }

    /// The buckets with one more path at the end of the bucket of its kind.
    pub open spec fn add(self, path: Seq<char>, category: MediaCategory) -> Buckets {
        match category {
            MediaCategory::Audio => Buckets { audio: self.audio.push(path), ..self },
            MediaCategory::Image => Buckets { images: self.images.push(path), ..self },
            MediaCategory::Video => Buckets { videos: self.videos.push(path), ..self },
        }
    }

    /// Whether a path is in one of the buckets.
    pub open spec fn contains(self, path: Seq<char>) -> bool {
        self.audio.contains(path) || self.images.contains(path) || self.videos.contains(path)
    }

    /// Whether no path is in two buckets.
    pub open spec fn partitioned(self) -> bool {
        forall|path: Seq<char>, a: MediaCategory, b: MediaCategory|
            #![trigger self.members(a).contains(path), self.members(b).contains(path)]
            self.members(a).contains(path) && self.members(b).contains(path) ==> a == b
    }

    /// All paths, in the order in which they are moved: audio, then images,
    /// then videos.
    pub open spec fn in_order(self) -> Seq<Seq<char>> {
        self.audio + self.images + self.videos
    }
}

/// The texts of a list of strings.
pub open spec fn texts(strings: Seq<String>) -> Seq<Seq<char>> {
    strings.map_values(|s: String| s@)
}

/// The paths found by a scan, one bucket for each kind of media.
pub struct ImportSet {
    audio: Vec<String>,
    images: Vec<String>,
    videos: Vec<String>,
}

impl View for ImportSet {
    type V = Buckets;

    closed spec fn view(&self) -> Buckets {
        Buckets {
            audio: texts(self.audio@),
            images: texts(self.images@),
            videos: texts(self.videos@),
        }
    }
}

impl ImportSet {
    /// A set without paths.
    pub fn new() -> (set: Self)
        ensures
            set@ == Buckets::empty(),
            set@.partitioned(),
    {
        let set = ImportSet { audio: Vec::new(), images: Vec::new(), videos: Vec::new() };
        assert(set@.audio =~= Seq::empty());
        assert(set@.images =~= Seq::empty());
        assert(set@.videos =~= Seq::empty());
        set
    }

    /// Puts a path at the end of the bucket of its kind. No path is then in two
    /// buckets, if none was before and the path was not in the set under
    /// another kind.
    pub fn add(&mut self, path: String, category: MediaCategory)
        ensures
            final(self)@ == old(self)@.add(path@, category),
            old(self)@.partitioned() && only_under(old(self)@, path@, category)
                ==> final(self)@.partitioned(),
    {
        proof {
            if old(self)@.partitioned() && only_under(old(self)@, path@, category) {
                lemma_add_keeps_partition(old(self)@, path@, category);
            }
        }
        match category {
            MediaCategory::Audio => {
                self.audio.push(path);
                assert(texts(self.audio@) =~= texts(old(self).audio@).push(path@));
            },
            MediaCategory::Image => {
                self.images.push(path);
                assert(texts(self.images@) =~= texts(old(self).images@).push(path@));
            },
            MediaCategory::Video => {
                self.videos.push(path);
                assert(texts(self.videos@) =~= texts(old(self).videos@).push(path@));
            },
        }
    }

    /// Adds a directory entry whose content was found to be of the given MIME
    /// type, if the entry has a kind. Returns whether it was added; an entry
    /// without a kind leaves the set as it was.
    pub fn add_media(&mut self, path: String, is_regular_file: bool, media_mime: MediaType) -> (added:
        bool)
        ensures
            match kind_of_media(is_regular_file, media_mime@, path@) {
                Some(category) => added && final(self)@ == old(self)@.add(path@, category),
                None => !added && final(self)@ == old(self)@,
            },
            old(self)@.partitioned() && !old(self)@.contains(path@) ==> final(self)@.partitioned(),
    {
        match classify_media(is_regular_file, &media_mime, path.as_str()) {
            Some(category) => {
                self.add(path, category);
                true
            },
            None => false,
        }
    }

    /// The audio files, in the order in which they were added.
    pub fn audio(&self) -> (paths: &Vec<String>)
        ensures
            texts(paths@) == self@.audio,
    {
        &self.audio
    }

    /// The images, in the order in which they were added.
    pub fn images(&self) -> (paths: &Vec<String>)
        ensures
            texts(paths@) == self@.images,
    {
        &self.images
    }

    /// The videos, in the order in which they were added.
    pub fn videos(&self) -> (paths: &Vec<String>)
        ensures
            texts(paths@) == self@.videos,
    {
        &self.videos
    }

    /// The files of one kind, in the order in which they were added.
    pub fn category_members(&self, category: MediaCategory) -> (paths: &Vec<String>)
        ensures
            texts(paths@) == self@.members(category),
    {
        match category {
            MediaCategory::Audio => &self.audio,
            MediaCategory::Image => &self.images,
            MediaCategory::Video => &self.videos,
        }
    }
}

/// Whether a path is in no bucket but, at most, that of the given kind.
pub open spec fn only_under(set: Buckets, path: Seq<char>, category: MediaCategory) -> bool {
    forall|m: MediaCategory| m != category ==> !#[trigger] set.members(m).contains(path)
}

/// A path added under one kind is then in the bucket of that kind and in no
/// other, provided that it was not in the set under another kind.
pub proof fn law_added_path_is_in_one_bucket(
    set: Buckets,
    path: Seq<char>,
    category: MediaCategory,
    other: MediaCategory,
)
    requires
        only_under(set, path, category),
        other != category,
    ensures
        set.add(path, category).members(category).contains(path),
        !set.add(path, category).members(other).contains(path),
{
    let after = set.add(path, category);
    assert(after.members(category) == set.members(category).push(path));
    assert(after.members(category).last() == path);
    assert(after.members(other) == set.members(other));
}

/// Adding a path keeps a set in which no path is in two buckets such a set,
/// provided that the path was not in the set under another kind.
pub proof fn lemma_add_keeps_partition(set: Buckets, path: Seq<char>, category: MediaCategory)
    requires
        set.partitioned(),
        only_under(set, path, category),
    ensures
        set.add(path, category).partitioned(),
{
    let after = set.add(path, category);
    assert(after.members(category) == set.members(category).push(path));
    assert forall|m: MediaCategory| m != category implies after.members(m) == set.members(m) by {}
    assert forall|p: Seq<char>, a: MediaCategory, b: MediaCategory|
        after.members(a).contains(p) && after.members(b).contains(p) implies a == b by {
        lemma_pushed_contains(set.members(category), path, p);
        if p != path {
            assert(set.members(a).contains(p));
            assert(set.members(b).contains(p));
        } else if a != category {
            assert(!set.members(a).contains(path));
        } else if b != category {
            assert(!set.members(b).contains(path));
        }
    }
}

/// What a list holds after a push: what it held, and the new item.
pub proof fn lemma_pushed_contains(list: Seq<Seq<char>>, item: Seq<char>, x: Seq<char>)
    ensures
        list.push(item).contains(x) <==> list.contains(x) || x == item,
{
    if list.push(item).contains(x) {
        let i = choose|i: int| 0 <= i < list.push(item).len() && list.push(item)[i] == x;
        if i < list.len() {
            assert(list[i] == x);
        }
    }
    if list.contains(x) {
        let i = choose|i: int| 0 <= i < list.len() && list[i] == x;
        assert(list.push(item)[i] == x);
    }
    if x == item {
        assert(list.push(item)[list.len() as int] == x);
    }
}

} // verus!
