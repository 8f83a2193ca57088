//! Telling the kind of a file from its content, and from its name where the
//! content does not say.

use vstd::prelude::*;
use crate::category::MediaCategory;
use crate::mime_type::{category_of, category_of_type, named_type, MediaType};
use crate::path::{extension, extension_chars, file_name_chars, has_file_name};
use crate::text::chars_of;

verus! {

/// Whether an extension is one of the audio extensions, `mp3` and `wav`, in
/// upper or lower case or a mix of them.
pub open spec fn is_audio_extension(ext: Seq<char>) -> bool {
    &&& ext.len() == 3
    &&& {
        ||| (ext[0] == 'm' || ext[0] == 'M') && (ext[1] == 'p' || ext[1] == 'P') && ext[2] == '3'
        ||| (ext[0] == 'w' || ext[0] == 'W') && (ext[1] == 'a' || ext[1] == 'A') && (ext[2] == 'v'
            || ext[2] == 'V')
    }
}

/// Whether the name of a path ends in an audio extension.
pub open spec fn has_audio_extension(path: Seq<char>) -> bool {
    extension(path) matches Some(ext) && is_audio_extension(ext)
}

/// The kind that content and name give a file, where `top_level` is the
/// top-level type of the MIME type found in the content, if one was found:
/// that type decides where it is audio, image or video; otherwise an audio
/// extension makes the file audio, and nothing else gives it a kind.
pub open spec fn kind_by_type(top_level: Option<Seq<char>>, path: Seq<char>) -> Option<
    MediaCategory,
> {
    let by_content = match top_level {
        Some(name) => category_of_type(name),
        None => None,
    };
    if by_content is Some {
        by_content
    } else if has_audio_extension(path) {
        Some(MediaCategory::Audio)
    } else {
        None
    }
}

/// The kind of a directory entry. Only a regular file, whose path ends in a
/// name, and whose content could be read, has one. `sniffed` is the MIME type
/// found in the content, `None` where the content could not be read; a text
/// that is no MIME type says nothing of the content.
pub open spec fn kind_of_entry(
    is_regular_file: bool,
    sniffed: Option<Seq<char>>,
    path: Seq<char>,
) -> Option<MediaCategory> {
    if is_regular_file && has_file_name(path) && sniffed is Some {
        kind_by_type(named_type(sniffed->0), path)
    } else {
        None
    }
}

/// The kind of an entry whose content was found to be of a MIME type with the
/// given top-level type.
pub open spec fn kind_of_media(is_regular_file: bool, top_level: Seq<char>, path: Seq<char>) -> Option<
    MediaCategory,
> {
    if is_regular_file && has_file_name(path) {
        kind_by_type(Some(top_level), path)
    } else {
        None
    }
}

/// The characters of a text that may be missing.
pub open spec fn text_view(text: Option<&str>) -> Option<Seq<char>> {
    match text {
        Some(t) => Some(t@),
        None => None,
    }
}

fn audio_extension(ext: &Vec<char>) -> (yes: bool)
    ensures
        yes == is_audio_extension(ext@),
{
    if ext.len() != 3 {
        return false;
    }
    let a = ext[0];
    let b = ext[1];
    let c = ext[2];
    ((a == 'm' || a == 'M') && (b == 'p' || b == 'P') && c == '3') || ((a == 'w' || a == 'W') && (b
        == 'a' || b == 'A') && (c == 'v' || c == 'V'))
}

fn kind_by_chars(top_level: Option<&str>, path: &Vec<char>) -> (kind: Option<MediaCategory>)
    ensures
        kind == kind_by_type(text_view(top_level), path@),
{
    let by_content = match top_level {
        Some(name) => category_of(name),
        None => None,
    };
    if by_content.is_some() {
        return by_content;
    }
    match extension_chars(path) {
        Some(ext) => if audio_extension(&ext) {
            Some(MediaCategory::Audio)
        } else {
            None
        },
        None => None,
    }
}

/// The kind that content and name give a file: `top_level` is the top-level
/// type of the MIME type found in the content, `None` where none was found.
pub fn classify_by_type(top_level: Option<&str>, path: &str) -> (kind: Option<MediaCategory>)
    ensures
        kind == kind_by_type(text_view(top_level), path@),
{
    let chars = chars_of(path);
    kind_by_chars(top_level, &chars)
}

/// The kind of a directory entry: `None` stands for an entry without one.
/// It never fails: what cannot be read, or is no regular file, has no kind.
pub fn classify(is_regular_file: bool, sniffed: Option<&str>, path: &str) -> (kind: Option<
    MediaCategory,
>)
    ensures
        kind == kind_of_entry(is_regular_file, text_view(sniffed), path@),
{
    if !is_regular_file {
        return None;
    }
    let chars = chars_of(path);
    if file_name_chars(&chars).len() == 0 {
        return None;
    }
    match sniffed {
        Some(text) => match MediaType::parse(text) {
            Some(media_type) => kind_by_chars(Some(media_type.top_level().as_str()), &chars),
            None => kind_by_chars(None, &chars),
        },
        None => None,
    }
}

/// The kind of an entry whose content was found to be of a given MIME type.
pub fn classify_media(is_regular_file: bool, media_type: &MediaType, path: &str) -> (kind: Option<
    MediaCategory,
>)
    ensures
        kind == kind_of_media(is_regular_file, media_type@, path@),
{
    if !is_regular_file {
        return None;
    }
    let chars = chars_of(path);
    if file_name_chars(&chars).len() == 0 {
        return None;
    }
    kind_by_chars(Some(media_type.top_level().as_str()), &chars)
}

/// Whether the sniffed content says nothing of the kind: its MIME type could
/// not be read, or its top-level type is none of audio, image and video.
pub open spec fn is_inconclusive(sniffed: Seq<char>) -> bool {
    named_type(sniffed) matches Some(name) ==> category_of_type(name) is None
}

/// Content decides: a regular file whose content is audio, image or video is of
/// that kind, whatever its extension.
pub proof fn law_content_decides(sniffed: Seq<char>, path: Seq<char>, category: MediaCategory)
    requires
        has_file_name(path),
        named_type(sniffed) matches Some(name) && category_of_type(name) == Some(category),
    ensures
        kind_of_entry(true, Some(sniffed), path) == Some(category),
{
}

/// Where the content is inconclusive, a file named `.mp3`, `.wav`, `.MP3` or
/// `.WAV` is audio.
pub proof fn law_audio_extension_falls_back(sniffed: Seq<char>, path: Seq<char>)
    requires
        is_inconclusive(sniffed),
        extension(path) == Some(seq!['m', 'p', '3']) || extension(path) == Some(
            seq!['w', 'a', 'v'],
        ) || extension(path) == Some(seq!['M', 'P', '3']) || extension(path) == Some(
            seq!['W', 'A', 'V'],
        ),
    ensures
        kind_of_entry(true, Some(sniffed), path) == Some(MediaCategory::Audio),
{
}

/// Where the content is inconclusive and the extension is no audio extension,
/// the file has no kind.
pub proof fn law_unknown_is_unclassified(is_regular_file: bool, sniffed: Seq<char>, path: Seq<char>)
    requires
        is_inconclusive(sniffed),
        !has_audio_extension(path),
    ensures
        kind_of_entry(is_regular_file, Some(sniffed), path) is None,
{
}

} // verus!
