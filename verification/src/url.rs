//! What an address says about the file behind it: the name to store it
//! under, and its extension.

use vstd::prelude::*;
use vstd::string::StrSliceExecFns;
use crate::text::characters;

verus! {

/// An address that names no file.
#[derive(Clone, Copy, Debug, PartialEq, Eq, Structural)]
pub enum UrlParseError {
    /// Nothing follows the last `/` of the path, or the address has no path.
    NoPathSegment,
    /// Nothing follows the last `.` of the file name, or it has no `.`.
    NoExtension,
}

/// The first position of `s` that holds `c`; the length of `s` where none
/// does.
pub open spec fn first_of(s: Seq<char>, c: char) -> int
    decreases s.len(),
{
    if s.len() == 0 {
        0
    } else if s[0] == c {
        0
    } else {
        1 + first_of(s.drop_first(), c)
    }
}

/// The last position of `s` that holds `c`; -1 where none does.
pub open spec fn last_of(s: Seq<char>, c: char) -> int
    decreases s.len(),
{
    if s.len() == 0 {
        -1
    } else if s.last() == c {
        s.len() - 1
    } else {
        last_of(s.drop_last(), c)
    }
}

/// The position just behind the first `://` of `s`; 0 where there is none.
pub open spec fn scheme_end(s: Seq<char>) -> nat
    decreases s.len(),
{
    if s.len() < 3 {
        0
    } else if s[0] == ':' && s[1] == '/' && s[2] == '/' {
        3
    } else {
        let rest = scheme_end(s.drop_first());
        if rest == 0 {
            0
        } else {
            rest + 1
        }
    }
}

/// The address up to its query: all that stands before the first `?`.
pub open spec fn without_query(url: Seq<char>) -> Seq<char> {
    url.take(first_of(url, '?'))
}

/// Host and path: the address without its query and its scheme.
pub open spec fn location(url: Seq<char>) -> Seq<char> {
    without_query(url).skip(scheme_end(without_query(url)) as int)
}

/// The last segment of the path, where the address has a path that ends in
/// one.
pub open spec fn file_name_of(url: Seq<char>) -> Option<Seq<char>> {
    let slash = last_of(location(url), '/');
    if slash < 0 || slash + 1 == location(url).len() {
        None
    } else {
        Some(location(url).skip(slash + 1))
    }
}

/// What follows the last `.` of a file name, where that is anything.
pub open spec fn extension_of(name: Seq<char>) -> Option<Seq<char>> {
    let dot = last_of(name, '.');
    if dot < 0 || dot + 1 == name.len() {
        None
    } else {
        Some(name.skip(dot + 1))
    }
}

/// `first_of` is a position of `c`, or the end, and `c` stands nowhere
/// before it.
pub proof fn lemma_first_of(s: Seq<char>, c: char)
    ensures
        0 <= first_of(s, c) <= s.len(),
        first_of(s, c) < s.len() ==> s[first_of(s, c)] == c,
        forall|i: int| 0 <= i < first_of(s, c) ==> s[i] != c,
    decreases s.len(),
{
    if s.len() > 0 && s[0] != c {
        let rest = s.drop_first();
        lemma_first_of(rest, c);
        assert forall|i: int| 0 <= i < first_of(s, c) implies s[i] != c by {
            if i > 0 {
                assert(s[i] == rest[i - 1]);
            }
        }
    }
}

/// `last_of` is a position of `c`, or -1, and `c` stands nowhere behind it.
pub proof fn lemma_last_of(s: Seq<char>, c: char)
    ensures
        -1 <= last_of(s, c) < s.len(),
        last_of(s, c) >= 0 ==> s[last_of(s, c)] == c,
        forall|i: int| last_of(s, c) < i < s.len() ==> s[i] != c,
    decreases s.len(),
{
    if s.len() > 0 && s.last() != c {
        let front = s.drop_last();
        lemma_last_of(front, c);
        assert forall|i: int| last_of(s, c) < i < s.len() implies s[i] != c by {
            if i < s.len() - 1 {
                assert(s[i] == front[i]);
            }
        }
    }
}

/// A scheme's end lies within the text, behind the three characters that
/// make it.
pub proof fn lemma_scheme_end(s: Seq<char>)
    ensures
        scheme_end(s) == 0 || 3 <= scheme_end(s) <= s.len(),
    decreases s.len(),
{
    if s.len() >= 3 && !(s[0] == ':' && s[1] == '/' && s[2] == '/') {
        lemma_scheme_end(s.drop_first());
    }
}

/// A file name is one segment of a path: it is not empty, and it holds
/// neither `/` nor `?`.
pub proof fn lemma_file_name_is_one_segment(url: Seq<char>)
    requires
        file_name_of(url) is Some,
    ensures
        file_name_of(url)->0.len() > 0,
        forall|i: int|
            0 <= i < file_name_of(url)->0.len() ==> file_name_of(url)->0[i] != '/'
                && file_name_of(url)->0[i] != '?',
{
    let resource = without_query(url);
    let place = location(url);
    let name = file_name_of(url)->0;
    lemma_first_of(url, '?');
    lemma_scheme_end(resource);
    lemma_last_of(place, '/');
    let slash = last_of(place, '/');
    assert forall|i: int| 0 <= i < name.len() implies name[i] != '/' && name[i] != '?' by {
        assert(resource[scheme_end(resource) + slash + 1 + i] == url[scheme_end(resource) + slash
            + 1 + i]);
    }
}

fn first_index(chars: &Vec<char>, c: char) -> (at: usize)
    ensures
        at == first_of(chars@, c),
        at <= chars.len(),
{
    let mut i: usize = 0;
    assert(chars@.skip(0) =~= chars@);
    while i < chars.len()
        invariant
            i <= chars.len(),
            first_of(chars@, c) == i + first_of(chars@.skip(i as int), c),
        decreases chars.len() - i,
    {
        assert(chars@.skip(i as int).drop_first() =~= chars@.skip(i as int + 1));
        if chars[i] == c {
            return i;
        }
        i += 1;
    }
    i
}

/// The last position at or behind `from` that holds `c`.
fn last_index_from(chars: &Vec<char>, from: usize, c: char) -> (at: Option<usize>)
    requires
        from <= chars.len(),
    ensures
        match at {
            Some(k) => from <= k < chars.len() && last_of(chars@.skip(from as int), c) == k
                - from,
            None => last_of(chars@.skip(from as int), c) == -1,
        },
{
    let ghost tail = chars@.skip(from as int);
    let mut i: usize = chars.len();
    assert(tail.take(tail.len() as int) =~= tail);
    while i > from
        invariant
            from <= i <= chars.len(),
            tail == chars@.skip(from as int),
            last_of(tail, c) == last_of(tail.take(i - from), c),
        decreases i,
    {
        assert(tail.take(i - from).drop_last() =~= tail.take(i - from - 1));
        if chars[i - 1] == c {
            return Some(i - 1);
        }
        i -= 1;
    }
    None
}

fn scheme_end_index(chars: &Vec<char>) -> (at: usize)
    ensures
        at == scheme_end(chars@),
        at <= chars.len(),
{
    if chars.len() < 3 {
        return 0;
    }
    let mut k: usize = 0;
    assert(chars@.skip(0) =~= chars@);
    while k + 2 < chars.len()
        invariant
            3 <= chars.len(),
            k + 2 <= chars.len(),
            scheme_end(chars@) == if scheme_end(chars@.skip(k as int)) == 0 {
                0
            } else {
                scheme_end(chars@.skip(k as int)) + k
            },
        decreases chars.len() - k,
    {
        assert(chars@.skip(k as int).drop_first() =~= chars@.skip(k as int + 1));
        if chars[k] == ':' && chars[k + 1] == '/' && chars[k + 2] == '/' {
            return k + 3;
        }
        k += 1;
    }
    0
}

/// The name to store the content of `url` under: the last segment of its
/// path, its query left out.
pub fn file_name(url: &str) -> (name: Result<String, UrlParseError>)
    ensures
        match name {
            Ok(n) => file_name_of(url@) == Some(n@),
            Err(e) => e == UrlParseError::NoPathSegment && file_name_of(url@).is_none(),
        },
{
    let mut chars = characters(url);
    let end = first_index(&chars, '?');
    chars.truncate(end);
    let start = scheme_end_index(&chars);
    match last_index_from(&chars, start, '/') {
        None => Err(UrlParseError::NoPathSegment),
        Some(slash) => {
            if slash + 1 == end {
                Err(UrlParseError::NoPathSegment)
            } else {
                Ok(url.substring_char(slash + 1, end).to_owned())
            }
        },
    }
}

/// The extension of a file name: what follows its last `.`.
pub fn extension(name: &str) -> (ext: Result<String, UrlParseError>)
    ensures
        match ext {
            Ok(x) => extension_of(name@) == Some(x@),
            Err(e) => e == UrlParseError::NoExtension && extension_of(name@).is_none(),
        },
{
    let chars = characters(name);
    assert(chars@.skip(0) =~= chars@);
    match last_index_from(&chars, 0, '.') {
        None => Err(UrlParseError::NoExtension),
        Some(dot) => {
            if dot + 1 == chars.len() {
                Err(UrlParseError::NoExtension)
            } else {
                Ok(name.substring_char(dot + 1, chars.len()).to_owned())
            }
        },
    }
}

} // verus!
