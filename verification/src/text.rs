use vstd::prelude::*;
use vstd::string::StrSliceExecFns;

verus! {

/// Relies on String::push: appends exactly the given character.
#[verifier::external_body]
pub fn push_char(s: &mut String, c: char)
    ensures
        final(s)@ == old(s)@.push(c),
{
    s.push(c);
}

/// Relies on char::is_lowercase: whether the character has the Unicode
/// lowercase property, a function of the character alone.
#[verifier::external_body]
pub fn char_is_lowercase(c: char) -> (r: bool)
    ensures
        r == is_lowercase_char(c),
{
    c.is_lowercase()
}

pub uninterp spec fn is_lowercase_char(c: char) -> bool;

/// The character of one decimal digit.
pub open spec fn spec_digit_char(d: int) -> char {
    ((48 + d) as u8) as char
}

/// Decimal digits of a non-negative number, most significant first.
pub open spec fn spec_decimal_digits(n: int) -> Seq<char>
    decreases n,
{
    if n < 10 {
        seq![spec_digit_char(n)]
    } else {
        spec_decimal_digits(n / 10).push(spec_digit_char(n % 10))
    }
}

/// Decimal rendering of a number.
#[verifier::loop_isolation(false)]
pub fn u64_to_string(n: u64) -> (r: String)
    ensures
        r@ == spec_decimal_digits(n as int),
{
    let mut digits: Vec<char> = Vec::new();
    digits.push(((48 + (n % 10)) as u8) as char);
    let mut rest: u64 = n / 10;
    proof {
        assert(low_digits(digits@) =~= seq![spec_digit_char(n as int % 10)]);
    }
    while rest > 0
        invariant
            digits@.len() >= 1,
            spec_decimal_digits(n as int) == if rest > 0 {
                spec_decimal_digits(rest as int) + low_digits(digits@)
            } else {
                low_digits(digits@)
            },
        decreases rest,
    {
        let ghost old_digits = digits@;
        let ghost old_rest = rest;
        digits.push(((48 + (rest % 10)) as u8) as char);
        rest = rest / 10;
        proof {
            assert(low_digits(digits@) =~= seq![spec_digit_char(old_rest as int % 10)] + low_digits(
                old_digits,
            ));
            if rest > 0 {
                assert(spec_decimal_digits(old_rest as int) == spec_decimal_digits(rest as int).push(
                    spec_digit_char(old_rest as int % 10),
                ));
                assert(spec_decimal_digits(rest as int).push(spec_digit_char(old_rest as int % 10))
                    + low_digits(old_digits) =~= spec_decimal_digits(rest as int) + low_digits(
                    digits@,
                ));
            } else {
                assert(spec_decimal_digits(old_rest as int) =~= seq![spec_digit_char(
                    old_rest as int % 10,
                )]);
            }
        }
    }
    let mut r = String::new();
    let mut i = digits.len();
    while i > 0
        invariant
            i <= digits@.len(),
            r@ =~= low_digits(digits@).take(digits@.len() - i),
        decreases i,
    {
        i -= 1;
        push_char(&mut r, digits[i]);
        proof {
            assert(r@ =~= low_digits(digits@).take(digits@.len() - i));
        }
    }
    proof {
        assert(low_digits(digits@).take(digits@.len() as int) =~= low_digits(digits@));
    }
    r
}

/// The digits collected so far, read back to front: the textual form of the
/// low-order part of the number.
pub open spec fn low_digits(digits: Seq<char>) -> Seq<char> {
    Seq::new(digits.len(), |j: int| digits[digits.len() - 1 - j])
}

pub fn u32_to_string(n: u32) -> (r: String)
    ensures
        r@ == spec_decimal_digits(n as int),
{
    u64_to_string(n as u64)
}

pub fn usize_to_string(n: usize) -> (r: String)
    ensures
        r@ == spec_decimal_digits(n as int),
{
    u64_to_string(n as u64)
}

/// Character-for-character string equality.
#[verifier::loop_isolation(false)]
pub fn str_eq(a: &str, b: &str) -> (r: bool)
    ensures
        r == (a@ == b@),
{
    let a_len = a.unicode_len();
    let b_len = b.unicode_len();
    if a_len != b_len {
        return false;
    }
    let mut i: usize = 0;
    while i < a_len
        invariant
            i <= a@.len(),
            forall|j: int| 0 <= j < i ==> a@[j] == b@[j],
        decreases a@.len() - i,
    {
        if a.get_char(i) != b.get_char(i) {
            return false;
        }
        i += 1;
    }
    proof {
        assert(a@ =~= b@);
    }
    true
}

/// A run of spaces of the given width.
pub open spec fn spec_spaces(k: int) -> Seq<char>
    decreases k,
{
    if k <= 0 {
        Seq::empty()
    } else {
        spec_spaces(k - 1).push(' ')
    }
}

#[verifier::loop_isolation(false)]
pub fn spaces(k: usize) -> (r: String)
    ensures
        r@ == spec_spaces(k as int),
{
    let mut r = String::new();
    let mut i: usize = 0;
    while i < k
        invariant
            i <= k,
            r@ == spec_spaces(i as int),
        decreases k - i,
    {
        push_char(&mut r, ' ');
        i += 1;
    }
    r
}

} // verus!
