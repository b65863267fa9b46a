//! Texts as sequences of characters, with and without their letter case.

use vstd::prelude::*;
use vstd::string::*;

verus! {

/// The characters of a text, one by one.
pub fn chars_of(text: &str) -> (chars: Vec<char>)
    ensures
        chars@ == text@,
{
    let n: usize = text.unicode_len();
    let mut chars: Vec<char> = Vec::new();
    let mut i: usize = 0;
    while i < n
        invariant
            n == text@.len(),
            i <= n,
            chars@ == text@.take(i as int),
        decreases n - i,
    {
        let c = text.get_char(i);
        chars.push(c);
        proof {
            assert(text@.take(i + 1) =~= text@.take(i as int).push(c));
        }
        i += 1;
    }
    proof {
        assert(text@.take(n as int) =~= text@);
    }
    chars
}

/// The lower case of a character, as `char::to_lowercase` gives it: one
/// character for most, and more than one for a few.
pub uninterp spec fn lowercase_of(c: char) -> Seq<char>;

/// Lower-cases the character with `char::to_lowercase` and collects what that
/// yields. The result depends on the character alone.
#[verifier::external_body]
fn lowercase(c: char) -> (lower: Vec<char>)
    ensures
        lower@ == lowercase_of(c),
{
    c.to_lowercase().collect()
}

/// A character without its case: its lower case.
pub open spec fn fold_case(c: char) -> Seq<char> {
    lowercase_of(c)
}

/// A text without its case: each character folded, in order.
pub open spec fn folded(text: Seq<char>) -> Seq<char>
    decreases text.len(),
{
    if text.len() == 0 {
        Seq::empty()
    } else {
        folded(text.drop_last()) + fold_case(text.last())
    }
}

/// The character without its case.
pub fn fold(c: char) -> (lower: Vec<char>)
    ensures
        lower@ == fold_case(c),
{
    lowercase(c)
}

/// The text without its case.
pub fn fold_text(text: &str) -> (lower: Vec<char>)
    ensures
        lower@ == folded(text@),
{
    let chars = chars_of(text);
    let mut lower: Vec<char> = Vec::new();
    let mut i: usize = 0;
    while i < chars.len()
        invariant
            chars@ == text@,
            i <= chars@.len(),
            lower@ == folded(text@.take(i as int)),
        decreases chars@.len() - i,
    {
        let mut piece = fold(chars[i]);
        proof {
            assert(text@.take(i + 1).drop_last() =~= text@.take(i as int));
            assert(text@.take(i + 1).last() == text@[i as int]);
        }
        lower.append(&mut piece);
        i += 1;
    }
    proof {
        assert(text@.take(chars@.len() as int) =~= text@);
    }
    lower
}

} // verus!
