//! File paths as texts whose parts are separated by `/`.

use vstd::prelude::*;
use crate::text::{chars_of, string_of};

verus! {

/// The position of the last `c` in `s`, or -1 where `s` holds none.
pub open spec fn last_index(s: Seq<char>, c: char) -> int
    decreases s.len(),
{
    if s.len() == 0 {
        -1
    } else if s.last() == c {
        s.len() - 1
    } else {
        last_index(s.drop_last(), c)
    }
}

/// The part of a path after its last separator: the whole path where it holds none.
pub open spec fn file_name(path: Seq<char>) -> Seq<char> {
    path.subrange(last_index(path, '/') + 1, path.len() as int)
}

/// Whether a path ends in a name, as every path of a file does.
pub open spec fn has_file_name(path: Seq<char>) -> bool {
    file_name(path).len() > 0
}

/// The part of the file name after its last dot. A name without a dot has no
/// extension, nor has one whose only dot comes first.
pub open spec fn extension(path: Seq<char>) -> Option<Seq<char>> {
    let name = file_name(path);
    let dot = last_index(name, '.');
    if dot <= 0 {
        None
    } else {
        Some(name.subrange(dot + 1, name.len() as int))
    }
}

/// A path made ready to take a part below it: it ends in a separator, unless
/// it is empty.
pub open spec fn as_directory(base: Seq<char>) -> Seq<char> {
    if base.len() == 0 || base.last() == '/' {
        base
    } else {
        base.push('/')
    }
}

/// A path with one more part below it.
pub open spec fn join(base: Seq<char>, part: Seq<char>) -> Seq<char> {
    as_directory(base) + part
}

/// `last_index` is the position of a `c` after which no `c` follows.
pub proof fn lemma_last_index(s: Seq<char>, c: char)
    ensures
        -1 <= last_index(s, c) < s.len(),
        last_index(s, c) >= 0 ==> s[last_index(s, c)] == c,
        forall|j: int| last_index(s, c) < j < s.len() ==> s[j] != c,
    decreases s.len(),
{
    if s.len() > 0 && s.last() != c {
        let front = s.drop_last();
        lemma_last_index(front, c);
        assert forall|j: int| last_index(s, c) < j < s.len() implies s[j] != c by {
            if j < front.len() {
                assert(front[j] == s[j]);
            }
        }
    }
}

/// A position of `c` after which no `c` follows is the last one.
pub proof fn lemma_last_index_unique(s: Seq<char>, c: char, i: int)
    requires
        -1 <= i < s.len(),
        i >= 0 ==> s[i] == c,
        forall|j: int| i < j < s.len() ==> s[j] != c,
    ensures
        last_index(s, c) == i,
{
    lemma_last_index(s, c);
}

/// A file name holds no separator.
pub proof fn lemma_file_name_has_no_separator(path: Seq<char>)
    ensures
        forall|j: int| 0 <= j < file_name(path).len() ==> file_name(path)[j] != '/',
{
    lemma_last_index(path, '/');
}

fn last_position(chars: &Vec<char>, c: char) -> (at: Option<usize>)
    ensures
        match at {
            Some(i) => i == last_index(chars@, c) && i < chars.len(),
            None => last_index(chars@, c) == -1,
        },
{
    let mut i: usize = chars.len();
    while i > 0
        invariant
            i <= chars.len(),
            forall|j: int| i <= j < chars.len() ==> chars@[j] != c,
        decreases i,
    {
        i -= 1;
        if chars[i] == c {
            proof {
                lemma_last_index_unique(chars@, c, i as int);
            }
            return Some(i);
        }
    }
    proof {
        lemma_last_index_unique(chars@, c, -1);
    }
    None
}

fn tail(chars: &Vec<char>, from: usize) -> (rest: Vec<char>)
    requires
        from <= chars.len(),
    ensures
        rest@ == chars@.subrange(from as int, chars.len() as int),
{
    let mut rest: Vec<char> = Vec::new();
    let mut i: usize = from;
    while i < chars.len()
        invariant
            from <= i <= chars.len(),
            rest@ == chars@.subrange(from as int, i as int),
        decreases chars.len() - i,
    {
        rest.push(chars[i]);
        i += 1;
    }
    rest
}

/// Makes a path ready to take a part below it.
pub fn push_separator(path: &mut Vec<char>)
    ensures
        final(path)@ == as_directory(old(path)@),
{
    if path.len() > 0 && path[path.len() - 1] != '/' {
        path.push('/');
    }
}

/// The characters of the file name of a path.
pub fn file_name_chars(path: &Vec<char>) -> (name: Vec<char>)
    ensures
        name@ == file_name(path@),
{
    match last_position(path, '/') {
        Some(i) => tail(path, i + 1),
        None => tail(path, 0),
    }
}

/// The characters of the extension of a path, if it has one.
pub fn extension_chars(path: &Vec<char>) -> (ext: Option<Vec<char>>)
    ensures
        match ext {
            Some(e) => extension(path@) == Some(e@),
            None => extension(path@) is None,
        },
{
    let name = file_name_chars(path);
    match last_position(&name, '.') {
        Some(i) => if i == 0 {
            None
        } else {
            Some(tail(&name, i + 1))
        },
        None => None,
    }
}

/// The file name of a path.
pub fn file_name_of(path: &str) -> (name: String)
    ensures
        name@ == file_name(path@),
{
    let chars = chars_of(path);
    let name = file_name_chars(&chars);
    string_of(&name)
}

/// The extension of a path, if it has one.
pub fn extension_of(path: &str) -> (ext: Option<String>)
    ensures
        match ext {
            Some(e) => extension(path@) == Some(e@),
            None => extension(path@) is None,
        },
{
    let chars = chars_of(path);
    match extension_chars(&chars) {
        Some(e) => Some(string_of(&e)),
        None => None,
    }
}

} // verus!
