//! Reading one cookie out of a `Cookie` header.
//!
//! The header is a list of pairs separated by a semicolon and a space. A pair
//! is a name, an equals sign and a value; white space around either is not
//! part of it. A piece without an equals sign is no pair and is passed over.

use vstd::prelude::*;
use vstd::string::*;
use crate::text::chars_of;

verus! {

/// White space, as `char::is_whitespace` has it.
pub open spec fn is_space(c: char) -> bool {
    ||| ('\u{9}' <= c && c <= '\u{d}')
    ||| c == ' '
    ||| c == '\u{85}'
    ||| c == '\u{a0}'
    ||| c == '\u{1680}'
    ||| ('\u{2000}' <= c && c <= '\u{200a}')
    ||| c == '\u{2028}'
    ||| c == '\u{2029}'
    ||| c == '\u{202f}'
    ||| c == '\u{205f}'
    ||| c == '\u{3000}'
}

/// A separator, a semicolon and a space, stands at `i`.
pub open spec fn separator_at(text: Seq<char>, i: int) -> bool {
    0 <= i && i + 1 < text.len() && text[i] == ';' && text[i + 1] == ' '
}

/// The first place at or after `from` where a separator stands; the end of
/// the text where none does.
pub open spec fn find_separator(text: Seq<char>, from: int) -> int
    decreases text.len() - from,
{
    if from < 0 || from >= text.len() {
        text.len() as int
    } else if separator_at(text, from) {
        from
    } else {
        find_separator(text, from + 1)
    }
}

/// The first place in `from..to` that holds `c`; `to` where none does.
pub open spec fn find_char(text: Seq<char>, c: char, from: int, to: int) -> int
    decreases to - from,
{
    if from >= to {
        to
    } else if text[from] == c {
        from
    } else {
        find_char(text, c, from + 1, to)
    }
}

/// The first place in `from..to` that holds no white space; `to` where all do.
pub open spec fn skip_spaces(text: Seq<char>, from: int, to: int) -> int
    decreases to - from,
{
    if from >= to {
        to
    } else if !is_space(text[from]) {
        from
    } else {
        skip_spaces(text, from + 1, to)
    }
}

/// The end of `from..to` without the white space that it ends in.
pub open spec fn skip_spaces_back(text: Seq<char>, from: int, to: int) -> int
    decreases to - from,
{
    if from >= to {
        from
    } else if !is_space(text[to - 1]) {
        to
    } else {
        skip_spaces_back(text, from, to - 1)
    }
}

/// Where `from..to` stands once the white space at both ends is taken off.
pub open spec fn trimmed_bounds(text: Seq<char>, from: int, to: int) -> (int, int) {
    let start = skip_spaces(text, from, to);
    (start, skip_spaces_back(text, start, to))
}

/// The text in `from..to` without the white space at both ends.
pub open spec fn trimmed(text: Seq<char>, from: int, to: int) -> Seq<char> {
    text.subrange(trimmed_bounds(text, from, to).0, trimmed_bounds(text, from, to).1)
}

/// The value of the pair in `from..to`, if that piece is a pair and its name
/// is `key`. The name ends at the first equals sign.
pub open spec fn pair_value(text: Seq<char>, key: Seq<char>, from: int, to: int) -> Option<Seq<char>> {
    let eq = find_char(text, '=', from, to);
    if eq < to && trimmed(text, from, eq) == key {
        Some(trimmed(text, eq + 1, to))
    } else {
        None
    }
}

/// The value of the first pair named `key` among the pieces that start at
/// `from`. The piece at `from` ends at the next separator, which never stands
/// before `from` and is two characters long; the next piece starts behind it.
pub open spec fn cookie_value_from(text: Seq<char>, key: Seq<char>, from: int) -> Option<Seq<char>>
    decreases text.len() - from,
{
    if from < 0 || from > text.len() {
        None
    } else {
        let end = find_separator(text, from);
        match pair_value(text, key, from, end) {
            Some(value) => Some(value),
            None => if from <= end && end + 2 <= text.len() {
                cookie_value_from(text, key, end + 2)
            } else {
                None
            },
        }
    }
}

/// The value of the first pair named `key` in the header.
pub open spec fn cookie_value(header: Seq<char>, key: Seq<char>) -> Option<Seq<char>> {
    cookie_value_from(header, key, 0)
}

/// Where the piece that starts at `from` ends: not before `from`, and either
/// at the end of the text or at a separator, behind which the text goes on
/// for two characters at least.
pub proof fn piece_ends_at_separator(text: Seq<char>, from: int)
    requires
        0 <= from <= text.len(),
    ensures
        from <= find_separator(text, from) <= text.len(),
        find_separator(text, from) < text.len() ==> separator_at(text, find_separator(text, from))
            && find_separator(text, from) + 2 <= text.len(),
        forall|i: int| from <= i < find_separator(text, from) ==> !separator_at(text, i),
    decreases text.len() - from,
{
    if from < text.len() && !separator_at(text, from) {
        piece_ends_at_separator(text, from + 1);
    }
}

/// Is the character white space?
pub fn is_whitespace(c: char) -> (space: bool)
    ensures
        space == is_space(c),
{
    ('\u{9}' <= c && c <= '\u{d}') || c == ' ' || c == '\u{85}' || c == '\u{a0}' || c == '\u{1680}' || (
    '\u{2000}' <= c && c <= '\u{200a}') || c == '\u{2028}' || c == '\u{2029}' || c == '\u{202f}' || c
        == '\u{205f}' || c == '\u{3000}'
}

fn scan_separator(text: &Vec<char>, from: usize) -> (end: usize)
    requires
        from <= text@.len(),
    ensures
        end == find_separator(text@, from as int),
        from <= end <= text@.len(),
{
    let n: usize = text.len();
    let mut i: usize = from;
    while i < n
        invariant
            n == text@.len(),
            from <= i <= n,
            find_separator(text@, i as int) == find_separator(text@, from as int),
        decreases n - i,
    {
        if text[i] == ';' && i + 1 < n && text[i + 1] == ' ' {
            return i;
        }
        i += 1;
    }
    i
}

fn scan_char(text: &Vec<char>, c: char, from: usize, to: usize) -> (place: usize)
    requires
        from <= to <= text@.len(),
    ensures
        place == find_char(text@, c, from as int, to as int),
        from <= place <= to,
{
    let mut i: usize = from;
    while i < to
        invariant
            from <= i <= to <= text@.len(),
            find_char(text@, c, i as int, to as int) == find_char(text@, c, from as int, to as int),
        decreases to - i,
    {
        if text[i] == c {
            return i;
        }
        i += 1;
    }
    i
}

fn trim_bounds(text: &Vec<char>, from: usize, to: usize) -> (bounds: (usize, usize))
    requires
        from <= to <= text@.len(),
    ensures
        (bounds.0 as int, bounds.1 as int) == trimmed_bounds(text@, from as int, to as int),
        from <= bounds.0 <= bounds.1 <= to,
{
    let mut start: usize = from;
    while start < to && is_whitespace(text[start])
        invariant
            from <= start <= to <= text@.len(),
            skip_spaces(text@, start as int, to as int) == skip_spaces(text@, from as int, to as int),
        decreases to - start,
    {
        start += 1;
    }
    let mut end: usize = to;
    while start < end && is_whitespace(text[end - 1])
        invariant
            start <= end <= to <= text@.len(),
            skip_spaces_back(text@, start as int, end as int) == skip_spaces_back(
                text@,
                start as int,
                to as int,
            ),
        decreases end - start,
    {
        end -= 1;
    }
    (start, end)
}

/// Is the text in `from..to` the key, character for character?
fn is_key(text: &Vec<char>, from: usize, to: usize, key: &Vec<char>) -> (same: bool)
    requires
        from <= to <= text@.len(),
    ensures
        same == (text@.subrange(from as int, to as int) == key@),
{
    if to - from != key.len() {
        return false;
    }
    let mut i: usize = 0;
    while i < key.len()
        invariant
            from <= to <= text@.len(),
            to - from == key@.len(),
            i <= key@.len(),
            forall|j: int| 0 <= j < i ==> text@[from + j] == key@[j],
        decreases key@.len() - i,
    {
        if text[from + i] != key[i] {
            proof {
                assert(text@.subrange(from as int, to as int)[i as int] != key@[i as int]);
            }
            return false;
        }
        i += 1;
    }
    proof {
        assert(text@.subrange(from as int, to as int) =~= key@);
    }
    true
}

/// The value of the first cookie named `key` in the header, if there is one.
pub fn get_cookie_value(cookie_header: &str, key: &str) -> (value: Option<String>)
    ensures
        match value {
            Some(v) => cookie_value(cookie_header@, key@) == Some(v@),
            None => cookie_value(cookie_header@, key@) is None,
        },
{
    let header = chars_of(cookie_header);
    let name = chars_of(key);
    let mut from: usize = 0;
    loop
        invariant
            header@ == cookie_header@,
            name@ == key@,
            from <= header@.len(),
            cookie_value_from(header@, name@, from as int) == cookie_value(header@, name@),
        decreases header@.len() - from,
    {
        let end = scan_separator(&header, from);
        let eq = scan_char(&header, '=', from, end);
        if eq < end {
            let (a, b) = trim_bounds(&header, from, eq);
            if is_key(&header, a, b, &name) {
                let (c, d) = trim_bounds(&header, eq + 1, end);
                let found = cookie_header.substring_char(c, d);
                return Some(found.to_owned());
            }
        }
        if end >= header.len() {
            return None;
        }
        proof {
            piece_ends_at_separator(header@, from as int);
        }
        from = end + 2;
    }
}

} // verus!
