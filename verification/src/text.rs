//! Small helpers on `String` and `&str` that the names of the record's fields are built and
//! compared with.

use vstd::prelude::*;
use vstd::string::StringExecFns;

verus! {

/// The character of one decimal digit.
pub open spec fn digit_char(digit: nat) -> char {
    if digit == 0 {
        '0'
    } else if digit == 1 {
        '1'
    } else if digit == 2 {
        '2'
    } else if digit == 3 {
        '3'
    } else if digit == 4 {
        '4'
    } else if digit == 5 {
        '5'
    } else if digit == 6 {
        '6'
    } else if digit == 7 {
        '7'
    } else if digit == 8 {
        '8'
    } else {
        '9'
    }
}

/// The decimal digit that a character shows, if it is one of `0` to `9`.
pub open spec fn char_digit(ch: char) -> Option<nat> {
    if ch == '0' {
        Some(0nat)
    } else if ch == '1' {
        Some(1nat)
    } else if ch == '2' {
        Some(2nat)
    } else if ch == '3' {
        Some(3nat)
    } else if ch == '4' {
        Some(4nat)
    } else if ch == '5' {
        Some(5nat)
    } else if ch == '6' {
        Some(6nat)
    } else if ch == '7' {
        Some(7nat)
    } else if ch == '8' {
        Some(8nat)
    } else if ch == '9' {
        Some(9nat)
    } else {
        None
    }
}

/// A number written in decimal, without leading zeros.
pub open spec fn decimal_digits(value: nat) -> Seq<char>
    decreases value,
{
    if value < 10 {
        seq![digit_char(value)]
    } else {
        decimal_digits(value / 10).push(digit_char(value % 10))
    }
}

/// The number that a run of decimal digit characters denotes, or `None` where the run is
/// empty or holds another character.
pub open spec fn decimal_number(digits: Seq<char>) -> Option<nat>
    decreases digits.len(),
{
    if digits.len() == 0 {
        None
    } else {
        match char_digit(digits.last()) {
            None => None,
            Some(digit) => if digits.len() == 1 {
                Some(digit)
            } else {
                match decimal_number(digits.drop_last()) {
                    None => None,
                    Some(front) => Some(front * 10 + digit),
                }
            },
        }
    }
}

/// Reading back what was written in decimal gives the number.
pub proof fn lemma_decimal_number_of_digits(value: nat)
    ensures
        decimal_number(decimal_digits(value)) == Some(value),
    decreases value,
{
    if value >= 10 {
        lemma_decimal_number_of_digits(value / 10);
        let front = decimal_digits(value / 10);
        let all = decimal_digits(value);
        assert(all.drop_last() =~= front);
        assert(all.last() == digit_char(value % 10));
        lemma_decimal_digits_len(value / 10);
    }
}

/// A number in decimal has at least one digit.
pub proof fn lemma_decimal_digits_len(value: nat)
    ensures
        decimal_digits(value).len() >= 1,
    decreases value,
{
    if value >= 10 {
        lemma_decimal_digits_len(value / 10);
    }
}

/// Calls `str::eq` of std: tells whether two strings hold the same characters.
#[verifier::external_body]
pub(crate) fn str_eq(a: &str, b: &str) -> (r: bool)
    ensures
        r == (a@ == b@),
{
    a == b
}

/// Calls `String::push` of std: appends one character to the string.
#[verifier::external_body]
pub(crate) fn push_char(out: &mut String, ch: char)
    ensures
        final(out)@ == old(out)@.push(ch),
{
    out.push(ch);
}

/// A `String` with the characters of `s`.
pub fn string_of(s: &str) -> (r: String)
    ensures
        r@ == s@,
{
    s.to_owned()
}

/// Appends the characters of `s` to `out`.
pub fn append(out: &mut String, s: &str)
    ensures
        final(out)@ == old(out)@ + s@,
{
    out.append(s);
}

/// The character of the decimal digit `digit`.
pub fn digit_to_char(digit: u8) -> (r: char)
    requires
        digit < 10,
    ensures
        r == digit_char(digit as nat),
{
    if digit == 0 {
        '0'
    } else if digit == 1 {
        '1'
    } else if digit == 2 {
        '2'
    } else if digit == 3 {
        '3'
    } else if digit == 4 {
        '4'
    } else if digit == 5 {
        '5'
    } else if digit == 6 {
        '6'
    } else if digit == 7 {
        '7'
    } else if digit == 8 {
        '8'
    } else {
        '9'
    }
}

/// The decimal digit that `ch` shows, if it is one of `0` to `9`.
pub fn char_to_digit(ch: char) -> (r: Option<u8>)
    ensures
        match r {
            Some(digit) => char_digit(ch) == Some(digit as nat) && digit < 10,
            None => char_digit(ch) is None,
        },
{
    if ch == '0' {
        Some(0)
    } else if ch == '1' {
        Some(1)
    } else if ch == '2' {
        Some(2)
    } else if ch == '3' {
        Some(3)
    } else if ch == '4' {
        Some(4)
    } else if ch == '5' {
        Some(5)
    } else if ch == '6' {
        Some(6)
    } else if ch == '7' {
        Some(7)
    } else if ch == '8' {
        Some(8)
    } else if ch == '9' {
        Some(9)
    } else {
        None
    }
}

/// Writes `value` in decimal.
pub fn decimal_string(value: usize) -> (r: String)
    ensures
        r@ == decimal_digits(value as nat),
    decreases value,
{
    if value < 10 {
        let mut out = String::new();
        push_char(&mut out, digit_to_char(value as u8));
        proof {
            assert(out@ =~= seq![digit_char(value as nat)]);
        }
        out
    } else {
        let mut out = decimal_string(value / 10);
        push_char(&mut out, digit_to_char((value % 10) as u8));
        out
    }
}

/// The number of digits of `value` in decimal.
pub fn decimal_len(value: usize) -> (r: usize)
    ensures
        r == decimal_digits(value as nat).len(),
        1 <= r <= 20,
    decreases value,
{
    if value < 10 {
        1
    } else {
        proof {
            lemma_decimal_digits_bound(value as nat);
            lemma_decimal_digits_bound((value / 10) as nat);
        }
        decimal_len(value / 10) + 1
    }
}

/// A number that a `usize` holds has at most twenty digits.
pub proof fn lemma_decimal_digits_bound(value: nat)
    requires
        value <= usize::MAX,
    ensures
        1 <= decimal_digits(value).len() <= 20,
{
    assert(usize::MAX <= 0xFFFF_FFFF_FFFF_FFFF);
    assert(power_of_ten(20) == 100_000_000_000_000_000_000) by {
        reveal_with_fuel(power_of_ten, 21);
    }
    lemma_decimal_digits_below(value, 20, 100_000_000_000_000_000_000);
}

/// A number below ten to the power of `count` has at most `count` digits.
pub proof fn lemma_decimal_digits_below(value: nat, count: nat, limit: nat)
    requires
        count >= 1,
        limit == power_of_ten(count),
        value < limit,
    ensures
        1 <= decimal_digits(value).len() <= count,
    decreases count,
{
    if value >= 10 {
        assert(count >= 2) by {
            reveal_with_fuel(power_of_ten, 2);
        }
        lemma_decimal_digits_below(value / 10, (count - 1) as nat, limit / 10);
    }
}

/// Ten to the power of `count`.
pub open spec fn power_of_ten(count: nat) -> nat
    decreases count,
{
    if count == 0 {
        1
    } else {
        10 * power_of_ten((count - 1) as nat)
    }
}

/// `count` times the character `ch`.
pub open spec fn repeated(ch: char, count: nat) -> Seq<char> {
    Seq::new(count, |i: int| ch)
}

/// Appends `count` times the character `ch` to `out`.
pub fn push_repeated(out: &mut String, ch: char, count: usize)
    ensures
        final(out)@ == old(out)@ + repeated(ch, count as nat),
{
    let mut i: usize = 0;
    proof {
        assert(out@ =~= old(out)@ + repeated(ch, 0));
    }
    while i < count
        invariant
            i <= count,
            out@ == old(out)@ + repeated(ch, i as nat),
        decreases count - i,
    {
        push_char(out, ch);
        i += 1;
        proof {
            assert(out@ =~= old(out)@ + repeated(ch, i as nat));
        }
    }
}

/// Reads a number below 256 written in decimal digits; `None` where `digits` is empty, holds
/// another character, or denotes a larger number.
pub fn parse_byte(digits: &str) -> (r: Option<u8>)
    ensures
        match r {
            Some(value) => decimal_number(digits@) == Some(value as nat),
            None => match decimal_number(digits@) {
                Some(value) => value > 255,
                None => true,
            },
        },
{
    let mut value: usize = 0;
    let mut seen = false;
    let mut large = false;
    for ch in iter: digits.chars()
        invariant
            iter.seq() == digits@,
            seen == (iter.index() > 0),
            !seen ==> value == 0 && !large,
            seen && !large ==> decimal_number(digits@.take(iter.index())) == Some(value as nat)
                && value <= 255,
            seen && large ==> (decimal_number(digits@.take(iter.index())) matches Some(v) && v
                > 255),
    {
        proof {
            let before = digits@.take(iter.index());
            let after = digits@.take(iter.index() + 1);
            assert(after.drop_last() =~= before);
            assert(after.last() == ch);
        }
        match char_to_digit(ch) {
            None => {
                proof {
                    lemma_decimal_number_prefix(digits@, iter.index() + 1);
                }
                return None;
            },
            Some(digit) => {
                if !large {
                    value = value * 10 + digit as usize;
                    if value > 255 {
                        large = true;
                    }
                }
            },
        }
        seen = true;
    }
    proof {
        assert(digits@.take(digits@.len() as int) =~= digits@);
    }
    if !seen || large {
        None
    } else {
        Some(value as u8)
    }
}

/// Where a start of the run is no number, the run is none either; where a start denotes a
/// number, every longer start that is a number denotes one at least as large.
pub proof fn lemma_decimal_number_prefix(digits: Seq<char>, count: int)
    requires
        0 < count <= digits.len(),
    ensures
        decimal_number(digits.take(count)) is None ==> decimal_number(digits) is None,
        decimal_number(digits) matches Some(whole) ==> (decimal_number(digits.take(count))
            matches Some(part) && part <= whole),
    decreases digits.len(),
{
    if count < digits.len() {
        assert(digits.drop_last().take(count) =~= digits.take(count));
        lemma_decimal_number_prefix(digits.drop_last(), count);
    } else {
        assert(digits.take(count) =~= digits);
    }
}

} // verus!
