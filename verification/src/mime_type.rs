//! What a MIME type says of the kind of a file's content.

use vstd::prelude::*;
use mime::Mime;
use crate::category::MediaCategory;
use crate::text::same_text;

verus! {

/// Whether a text can be read as a MIME type, as the `mime` crate reads it.
pub uninterp spec fn is_media_type(text: Seq<char>) -> bool;

/// The position of the first `c` in `s`: the length of `s` where it holds none.
pub open spec fn first_index(s: Seq<char>, c: char) -> int
    decreases s.len(),
{
    if s.len() == 0 || s[0] == c {
        0
    } else {
        1 + first_index(s.drop_first(), c)
    }
}

/// A character in lower case, where it is a letter from `A` to `Z`.
pub open spec fn lower_case(c: char) -> char {
    if 'A' <= c <= 'Z' {
        ((c as int) + 32) as char
    } else {
        c
    }
}

/// A text with its letters from `A` to `Z` in lower case.
pub open spec fn in_lower_case(text: Seq<char>) -> Seq<char> {
    Seq::new(text.len(), |i: int| lower_case(text[i]))
}

/// The top-level type of a MIME type, such as `image` in `image/png`: what
/// stands before the first slash, in lower case.
pub open spec fn top_level_type(text: Seq<char>) -> Seq<char> {
    in_lower_case(text.take(first_index(text, '/')))
}

/// The top-level type that a text names, if it can be read as a MIME type.
pub open spec fn named_type(text: Seq<char>) -> Option<Seq<char>> {
    if is_media_type(text) {
        Some(top_level_type(text))
    } else {
        None
    }
}

/// The kind of media that a top-level type stands for, if any.
pub open spec fn category_of_type(top_level: Seq<char>) -> Option<MediaCategory> {
    if top_level == seq!['a', 'u', 'd', 'i', 'o'] {
        Some(MediaCategory::Audio)
    } else if top_level == seq!['i', 'm', 'a', 'g', 'e'] {
        Some(MediaCategory::Image)
    } else if top_level == seq!['v', 'i', 'd', 'e', 'o'] {
        Some(MediaCategory::Video)
    } else {
        None
    }
}

/// Calls `str::parse::<mime::Mime>` and, where the text parses, `Mime::type_`,
/// whose name it copies into a `String`. Not proved: that the outcome depends
/// on the text alone, an error standing for a text that is no MIME type, which
/// `is_media_type` names; and that the name given is what stands before the
/// first slash of the text, in lower case.
#[verifier::external_body]
fn parsed_top_level(text: &str) -> (name: Option<String>)
    ensures
        name is Some <==> is_media_type(text@),
        name matches Some(n) ==> n@ == top_level_type(text@),
{
    match text.parse::<Mime>() {
        Ok(media_type) => Some(media_type.type_().as_str().to_owned()),
        Err(_) => None,
    }
}

/// A MIME type, as far as the kind of a file depends on it: its top-level type.
#[derive(Debug, PartialEq, Eq)]
pub struct MediaType {
    top_level: String,
}

impl View for MediaType {
    type V = Seq<char>;

    /// The top-level type.
    closed spec fn view(&self) -> Seq<char> {
        self.top_level@
    }
}

/// The top-level type of a MIME type that may be missing.
pub open spec fn type_view(media_type: Option<MediaType>) -> Option<Seq<char>> {
    match media_type {
        Some(m) => Some(m@),
        None => None,
    }
}

impl MediaType {
    /// The MIME type that a text names, if it can be read as one.
    pub fn parse(text: &str) -> (media_type: Option<MediaType>)
        ensures
            type_view(media_type) == named_type(text@),
    {
        match parsed_top_level(text) {
            Some(top_level) => Some(MediaType { top_level }),
            None => None,
        }
    }

    /// The top-level type, in lower case.
    pub fn top_level(&self) -> (name: &String)
        ensures
            name@ == self@,
    {
        &self.top_level
    }

    /// The kind of media that the type stands for, if any.
    pub fn category(&self) -> (category: Option<MediaCategory>)
        ensures
            category == category_of_type(self@),
    {
        category_of(self.top_level.as_str())
    }
}

/// The kind of media that a top-level type stands for, if any.
pub fn category_of(top_level: &str) -> (category: Option<MediaCategory>)
    ensures
        category == category_of_type(top_level@),
{
    proof {
        reveal_strlit("audio");
        reveal_strlit("image");
        reveal_strlit("video");
    }
    assert("audio"@ =~= seq!['a', 'u', 'd', 'i', 'o']);
    assert("image"@ =~= seq!['i', 'm', 'a', 'g', 'e']);
    assert("video"@ =~= seq!['v', 'i', 'd', 'e', 'o']);
    if same_text(top_level, "audio") {
        Some(MediaCategory::Audio)
    } else if same_text(top_level, "image") {
        Some(MediaCategory::Image)
    } else if same_text(top_level, "video") {
        Some(MediaCategory::Video)
    } else {
        None
    }
}

/// The first `c` stands where `first_index` says, and none stands before it.
pub proof fn lemma_first_index(s: Seq<char>, c: char)
    ensures
        0 <= first_index(s, c) <= s.len(),
        first_index(s, c) < s.len() ==> s[first_index(s, c)] == c,
        forall|j: int| 0 <= j < first_index(s, c) ==> s[j] != c,
    decreases s.len(),
{
    if s.len() > 0 && s[0] != c {
        let rest = s.drop_first();
        lemma_first_index(rest, c);
        assert forall|j: int| 0 <= j < first_index(s, c) implies s[j] != c by {
            if j > 0 {
                assert(rest[j - 1] == s[j]);
            }
        }
    }
}

/// A position of `c` before which no `c` stands is the first one.
pub proof fn lemma_first_index_unique(s: Seq<char>, c: char, i: int)
    requires
        0 <= i <= s.len(),
        i < s.len() ==> s[i] == c,
        forall|j: int| 0 <= j < i ==> s[j] != c,
    ensures
        first_index(s, c) == i,
{
    lemma_first_index(s, c);
}

/// The top-level type of a text is what stands before its first slash: a text
/// made of a name without a slash, a slash, and any text has the name, in
/// lower case, for its top-level type.
pub proof fn law_top_level_type(name: Seq<char>, rest: Seq<char>)
    requires
        forall|j: int| 0 <= j < name.len() ==> name[j] != '/',
    ensures
        top_level_type(name + seq!['/'] + rest) == in_lower_case(name),
{
    let text = name + seq!['/'] + rest;
    assert forall|j: int| 0 <= j < name.len() implies text[j] != '/' by {
        assert(text[j] == name[j]);
    }
    lemma_first_index_unique(text, '/', name.len() as int);
    assert(text.take(name.len() as int) =~= name);
}

} // verus!
