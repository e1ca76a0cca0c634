//! Decimal digits and small decimal numerals, shared by the time value and
//! the numeric input fields: what a digit character is worth, what a number
//! looks like as a string, and executable parsing and formatting proved
//! against those definitions.

use vstd::prelude::*;

verus! {

/// The ten decimal digit characters.
pub open spec fn is_digit(c: char) -> bool {
    '0' <= c && c <= '9'
}

/// The value of one digit character.
pub open spec fn digit_of(c: char) -> int {
    c as int - '0' as int
}

/// The character for one digit value.
pub open spec fn digit_char(d: int) -> char {
    (d + '0' as int) as char
}

/// The value of a digit string read left to right, most significant first.
pub open spec fn digits_val(s: Seq<char>) -> int
    decreases s.len(),
{
    if s.len() == 0 {
        0
    } else {
        digits_val(s.drop_last()) * 10 + digit_of(s.last())
    }
}

/// Whether every character of `s` is a decimal digit.
pub open spec fn all_digits(s: Seq<char>) -> bool {
    forall|i: int| 0 <= i < s.len() ==> is_digit(#[trigger] s[i])
}

/// The canonical numeral of `n`: no leading zeros, one `'0'` for zero.
pub open spec fn numeral_of(n: int) -> Seq<char>
    decreases n,
{
    if n <= 0 {
        seq![digit_char(0)]
    } else if n < 10 {
        seq![digit_char(n)]
    } else {
        numeral_of(n / 10).push(digit_char(n % 10))
    }
}

/// A digit string is never worth less than zero.
pub proof fn lemma_digits_val_nonneg(s: Seq<char>)
    requires
        all_digits(s),
    ensures
        digits_val(s) >= 0,
    decreases s.len(),
{
    if s.len() > 0 {
        assert(all_digits(s.drop_last()));
        lemma_digits_val_nonneg(s.drop_last());
    }
}

/// Appending digits never shrinks the value: the whole string is worth at
/// least any of its prefixes.
proof fn lemma_digits_val_prefix(s: Seq<char>, i: int)
    requires
        0 <= i < s.len(),
        all_digits(s),
    ensures
        digits_val(s) >= digits_val(s.subrange(0, i + 1)),
    decreases s.len() - i,
{
    if i + 1 == s.len() {
        assert(s.subrange(0, i + 1) == s);
    } else {
        lemma_digits_val_prefix(s, i + 1);
        assert(s.subrange(0, i + 2).drop_last() == s.subrange(0, i + 1));
        assert(all_digits(s.subrange(0, i + 1)));
        lemma_digits_val_nonneg(s.subrange(0, i + 1));
        assert(digit_of(s.subrange(0, i + 2).last()) >= 0);
    }
}

/// The canonical numeral names its number: reading the digits of
/// `numeral_of(n)` back gives `n`.
pub proof fn lemma_numeral_val(n: int)
    requires
        n >= 0,
    ensures
        digits_val(numeral_of(n)) == n,
        all_digits(numeral_of(n)),
    decreases n,
{
    if n < 10 {
        assert(numeral_of(n).drop_last() =~= Seq::<char>::empty());
        assert(digits_val(numeral_of(n)) == digits_val(Seq::<char>::empty()) * 10 + digit_of(
            digit_char(n),
        ));
        assert(digit_of(digit_char(n)) == n);
    } else {
        lemma_numeral_val(n / 10);
        vstd::arithmetic::div_mod::lemma_fundamental_div_mod(n, 10);
        let s = numeral_of(n);
        assert(s == numeral_of(n / 10).push(digit_char(n % 10)));
        assert(s.drop_last() =~= numeral_of(n / 10));
        assert(s.last() == digit_char(n % 10));
        assert(0 <= n % 10 <= 9);
        assert(digit_of(digit_char(n % 10)) == n % 10);
        assert(digits_val(s) == digits_val(numeral_of(n / 10)) * 10 + (n % 10));
        assert(all_digits(s)) by {
            assert(forall|i: int| 0 <= i < s.len() - 1 ==> s[i] == numeral_of(n / 10)[i]);
            assert(is_digit(digit_char(n % 10)));
        }
    }
}

/// A smaller number never needs more digits.
pub proof fn lemma_numeral_len_mono(n: int, m: int)
    requires
        0 <= n <= m,
    ensures
        numeral_of(n).len() <= numeral_of(m).len(),
    decreases m,
{
    if m >= 10 && n >= 10 {
        vstd::arithmetic::div_mod::lemma_div_is_ordered(n, m, 10);
        lemma_numeral_len_mono(n / 10, m / 10);
    } else if m >= 10 {
        lemma_numeral_len_mono(0, m / 10);
    }
}

/// Deleting one digit from a digit string never makes the number larger.
pub proof fn lemma_digits_val_remove(s: Seq<char>, i: int)
    requires
        all_digits(s),
        0 <= i < s.len(),
    ensures
        all_digits(s.remove(i)),
        digits_val(s.remove(i)) <= digits_val(s),
    decreases s.len(),
{
    assert(all_digits(s.remove(i))) by {
        assert(forall|k: int|
            0 <= k < s.remove(i).len() ==> #[trigger] s.remove(i)[k] == (if k < i {
                s[k]
            } else {
                s[k + 1]
            }));
    }
    assert(all_digits(s.drop_last())) by {
        assert(forall|k: int| 0 <= k < s.len() - 1 ==> s.drop_last()[k] == s[k]);
    }
    lemma_digits_val_nonneg(s.drop_last());
    if i == s.len() - 1 {
        assert(s.remove(i) =~= s.drop_last());
        assert(digit_of(s.last()) >= 0);
    } else {
        lemma_digits_val_remove(s.drop_last(), i);
        assert(s.remove(i).drop_last() =~= s.drop_last().remove(i));
        assert(s.remove(i).last() == s.last());
    }
}

/// Turns one digit character into its value, or reports that the character
/// is no digit.
pub fn char_digit(c: char) -> (r: Option<u8>)
    ensures
        r is Some <==> is_digit(c),
        r matches Some(d) ==> d == digit_of(c),
{
    if '0' <= c && c <= '9' {
        Some((c as u32 - '0' as u32) as u8)
    } else {
        None
    }
}

/// Turns one digit value into its character.
pub fn digit_to_char(d: u8) -> (c: char)
    requires
        d <= 9,
    ensures
        c == digit_char(d as int),
        is_digit(c),
{
    (d + 48) as char
}

/// The value of a digit string, refused when a character is no digit, when
/// the string is empty, or when the value passes `bound`.
///
/// This is how the numeric input fields judge a candidate text: the field
/// accepts a keystroke only when the text it would produce still names a
/// number within the field's maximum.
pub fn parse_bounded(text: &Vec<char>, bound: u32) -> (r: Option<u32>)
    ensures
        r is Some <==> (text@.len() > 0 && all_digits(text@) && digits_val(text@) <= bound),
        r matches Some(v) ==> v == digits_val(text@),
{
    if text.len() == 0 {
        return None;
    }
    let mut acc: u64 = 0;
    let mut i: usize = 0;
    while i < text.len()
        invariant
            0 <= i <= text@.len(),
            all_digits(text@.subrange(0, i as int)),
            acc == digits_val(text@.subrange(0, i as int)),
            acc <= bound,
        decreases text@.len() - i,
    {
        let c = text[i];
        let d = match char_digit(c) {
            Some(d) => d,
            None => {
                return None;
            },
        };
        proof {
            assert(text@.subrange(0, i + 1).drop_last() == text@.subrange(0, i as int));
            assert(text@.subrange(0, i + 1).last() == text@[i as int]);
        }
        let next = acc * 10 + d as u64;
        if next > bound as u64 {
            proof {
                if all_digits(text@) {
                    lemma_digits_val_prefix(text@, i as int);
                }
            }
            return None;
        }
        acc = next;
        i += 1;
    }
    proof {
        assert(text@.subrange(0, text@.len() as int) == text@);
    }
    Some(acc as u32)
}

/// The canonical numeral of `n` as characters: digits are peeled off the
/// right and pushed onto the front of the result.
pub fn numeral_chars(n: u32) -> (r: Vec<char>)
    ensures
        r@ == numeral_of(n as int),
        r@.len() > 0,
        all_digits(r@),
{
    let mut out: Vec<char> = Vec::new();
    if n == 0 {
        out.push(digit_to_char(0));
        proof {
            assert(out@ =~= numeral_of(0));
        }
        return out;
    }
    let mut rest: u32 = n;
    while rest > 0
        invariant
            n > 0,
            rest >= 0,
            all_digits(out@),
            rest > 0 ==> numeral_of(n as int) == numeral_of(rest as int) + out@,
            rest == 0 ==> numeral_of(n as int) == out@ && out@.len() > 0,
        decreases rest,
    {
        let ghost prev = rest as int;
        let ghost prefix = out@;
        let d = (rest % 10) as u8;
        out.insert(0, digit_to_char(d));
        rest = rest / 10;
        proof {
            assert(out@ =~= seq![digit_char(prev % 10)] + prefix);
            if prev < 10 {
                vstd::arithmetic::div_mod::lemma_small_mod(prev as nat, 10);
                vstd::arithmetic::div_mod::lemma_basic_div(prev, 10);
                assert(numeral_of(prev) =~= seq![digit_char(prev % 10)]);
                assert(numeral_of(n as int) =~= out@);
            } else {
                assert(numeral_of(prev) =~= numeral_of(prev / 10) + seq![
                    digit_char(prev % 10),
                ]);
                assert(numeral_of(rest as int) + out@ =~= (numeral_of(prev / 10) + seq![
                    digit_char(prev % 10),
                ]) + prefix);
                assert(numeral_of(n as int) =~= numeral_of(rest as int) + out@);
            }
        }
    }
    out
}

} // verus!
