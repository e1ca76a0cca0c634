//! Small text helpers: character-wise string equality, centring a text in
//! a padded line, and the one piece of `String` behaviour assumed from the
//! standard library.

use vstd::prelude::*;
use vstd::string::{StrSliceExecFns, StringExecFns};

verus! {

/// Relies on std's `String::push`, which appends exactly the given
/// character to the end of the string.
pub assume_specification[ String::push ](s: &mut String, ch: char)
    ensures
        final(s)@ == old(s)@.push(ch),
;

/// The characters of a string, in order.
pub fn str_chars(s: &str) -> (r: Vec<char>)
    ensures
        r@ == s@,
{
    let len = s.unicode_len();
    let mut r: Vec<char> = Vec::new();
    let mut i: usize = 0;
    while i < len
        invariant
            0 <= i <= len,
            len == s@.len(),
            r@ =~= s@.subrange(0, i as int),
        decreases len - i,
    {
        r.push(s.get_char(i));
        i += 1;
    }
    proof {
        assert(s@.subrange(0, s@.len() as int) == s@);
    }
    r
}

/// The string holding exactly the given characters.
pub fn chars_string(v: &Vec<char>) -> (r: String)
    ensures
        r@ == v@,
{
    let mut r = String::new();
    let mut i: usize = 0;
    while i < v.len()
        invariant
            0 <= i <= v@.len(),
            r@ =~= v@.subrange(0, i as int),
        decreases v@.len() - i,
    {
        r.push(v[i]);
        i += 1;
    }
    proof {
        assert(v@.subrange(0, v@.len() as int) == v@);
    }
    r
}

/// Whether two strings hold the same characters.
pub fn str_eq_chars(a: &str, b: &str) -> (r: bool)
    ensures
        r == (a@ == b@),
{
    let la = a.unicode_len();
    let lb = b.unicode_len();
    if la != lb {
        return false;
    }
    let mut i: usize = 0;
    while i < la
        invariant
            0 <= i <= la,
            la == a@.len() && la == b@.len(),
            forall|j: int| 0 <= j < i ==> a@[j] == b@[j],
        decreases la - i,
    {
        if a.get_char(i) != b.get_char(i) {
            return false;
        }
        i += 1;
    }
    proof {
        assert(a@ =~= b@);
    }
    true
}

/// `n` copies of one character.
pub open spec fn pad_seq(c: char, n: int) -> Seq<char> {
    Seq::new(n as nat, |i: int| c)
}

/// Centres `text` in a line of `width` characters, filling both sides with
/// `pad_with`; the left side gets the smaller half when the padding is
/// odd.
pub fn center_text(text: &str, width: usize, pad_with: char) -> (r: String)
    requires
        text@.len() <= width,
    ensures
        r@ == pad_seq(pad_with, ((width - text@.len()) / 2) as int) + text@ + pad_seq(
            pad_with,
            (width - text@.len() - (width - text@.len()) / 2) as int,
        ),
        r@.len() == width,
{
    let len = text.unicode_len();
    let total_padding = width - len;
    let left_padding = total_padding / 2;
    let right_padding = total_padding - left_padding;

    let mut r = String::new();
    let mut i: usize = 0;
    while i < left_padding
        invariant
            0 <= i <= left_padding,
            r@ =~= pad_seq(pad_with, i as int),
        decreases left_padding - i,
    {
        r.push(pad_with);
        i += 1;
    }
    r.append(text);
    let mut j: usize = 0;
    while j < right_padding
        invariant
            0 <= j <= right_padding,
            r@ =~= pad_seq(pad_with, left_padding as int) + text@ + pad_seq(
                pad_with,
                j as int,
            ),
        decreases right_padding - j,
    {
        r.push(pad_with);
        j += 1;
    }
    r
}

} // verus!
