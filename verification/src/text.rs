//! Small verified operations on strings, seen as sequences of characters.

use vstd::prelude::*;
use vstd::string::*;
use vstd::utf8::*;

verus! {

/// The first index at which `c` stands in `text`, or the length of `text`
/// where it stands nowhere.
pub open spec fn position_of(text: Seq<char>, c: char) -> int
    decreases text.len(),
{
    if text.len() == 0 {
        0
    } else if text[0] == c {
        0
    } else {
        1 + position_of(text.drop_first(), c)
    }
}

/// `position_of` is the least index that holds `c`.
pub proof fn lemma_position_of(text: Seq<char>, c: char, i: int)
    requires
        0 <= i <= text.len(),
        forall|j: int| 0 <= j < i ==> text[j] != c,
        i == text.len() || text[i] == c,
    ensures
        position_of(text, c) == i,
    decreases text.len(),
{
    if text.len() == 0 {
    } else if i == 0 {
    } else {
        let rest = text.drop_first();
        assert(text[0] != c);
        assert forall|j: int| 0 <= j < i - 1 implies rest[j] != c by {
            assert(rest[j] == text[j + 1]);
        }
        lemma_position_of(rest, c, i - 1);
    }
}

/// Whether two strings hold the same characters.
pub fn str_equals(a: &str, b: &str) -> (same: bool)
    ensures
        same == (a@ == b@),
{
    let left = a.as_bytes();
    let right = b.as_bytes();
    proof {
        encode_utf8_decode_utf8(a@);
        encode_utf8_decode_utf8(b@);
    }
    if left.len() != right.len() {
        return false;
    }
    let mut i: usize = 0;
    while i < left.len()
        invariant
            i <= left.len(),
            left.len() == right.len(),
            left@ == a.spec_bytes(),
            right@ == b.spec_bytes(),
            forall|j: int| 0 <= j < i ==> left@[j] == right@[j],
        decreases left.len() - i,
    {
        if left[i] != right[i] {
            return false;
        }
        i += 1;
    }
    assert(left@ =~= right@);
    true
}

/// Whether `text` begins with the characters of `prefix`.
pub fn str_starts_with(text: &str, prefix: &str) -> (found: bool)
    ensures
        found == prefix@.is_prefix_of(text@),
{
    let prefix_length = prefix.unicode_len();
    if text.unicode_len() < prefix_length {
        return false;
    }
    let mut i: usize = 0;
    while i < prefix_length
        invariant
            i <= prefix_length,
            prefix_length == prefix@.len(),
            prefix_length <= text@.len(),
            forall|j: int| 0 <= j < i ==> text@[j] == prefix@[j],
        decreases prefix_length - i,
    {
        if text.get_char(i) != prefix.get_char(i) {
            return false;
        }
        i += 1;
    }
    assert(text@.subrange(0, prefix@.len() as int) =~= prefix@);
    true
}

/// The index of the first `c` in `text`, or the number of characters of
/// `text` where there is none.
pub fn str_position_of(text: &str, c: char) -> (position: usize)
    ensures
        position == position_of(text@, c),
        position <= text@.len(),
        position < text@.len() ==> text@[position as int] == c,
        forall|j: int| 0 <= j < position ==> text@[j] != c,
{
    let length = text.unicode_len();
    let mut i: usize = 0;
    while i < length
        invariant
            i <= length,
            length == text@.len(),
            forall|j: int| 0 <= j < i ==> text@[j] != c,
        decreases length - i,
    {
        if text.get_char(i) == c {
            proof {
                lemma_position_of(text@, c, i as int);
            }
            return i;
        }
        i += 1;
    }
    proof {
        lemma_position_of(text@, c, i as int);
    }
    i
}

/// Whether `c` is one of the ten decimal digits.
pub open spec fn is_digit(c: char) -> bool {
    '0' <= c && c <= '9'
}

/// Whether `text` holds decimal digits only.
pub open spec fn all_digits(text: Seq<char>) -> bool {
    forall|i: int| 0 <= i < text.len() ==> is_digit(#[trigger] text[i])
}

/// The number that the decimal digits of `digits` spell.
pub open spec fn digits_value(digits: Seq<char>) -> int
    decreases digits.len(),
{
    if digits.len() == 0 {
        0
    } else {
        10 * digits_value(digits.drop_last()) + (digits.last() as u32 - '0' as u32)
    }
}

/// The part of `text` after a leading sign, or all of it where there is none.
pub open spec fn unsigned_part(text: Seq<char>) -> Seq<char> {
    if text.len() > 0 && (text[0] == '-' || text[0] == '+') {
        text.subrange(1, text.len() as int)
    } else {
        text
    }
}

/// The integer that `text` spells, before any range is applied: a sign,
/// `+` or `-`, may come first, and at least one digit must follow.
pub open spec fn decimal_value(text: Seq<char>) -> Option<int> {
    let digits = unsigned_part(text);
    if digits.len() == 0 || !all_digits(digits) {
        None
    } else if text[0] == '-' {
        Some(-digits_value(digits))
    } else {
        Some(digits_value(digits))
    }
}

/// The `i32` that `text` spells in decimal, if it spells one: an optional
/// sign, then digits only, and a value that an `i32` can hold.
pub open spec fn decimal_i32(text: Seq<char>) -> Option<i32> {
    match decimal_value(text) {
        Some(value) => if i32::MIN <= value <= i32::MAX {
            Some(value as i32)
        } else {
            None
        },
        None => None,
    }
}

/// Digits only add to the value: a prefix spells no more than the whole.
pub proof fn lemma_digits_value_grows(digits: Seq<char>, n: int)
    requires
        all_digits(digits),
        0 <= n <= digits.len(),
    ensures
        0 <= digits_value(digits.subrange(0, n)) <= digits_value(digits),
    decreases digits.len() - n,
{
    if n == digits.len() {
        assert(digits.subrange(0, n) =~= digits);
        lemma_digits_value_not_negative(digits);
    } else {
        let longer = digits.subrange(0, n + 1);
        assert(longer.drop_last() =~= digits.subrange(0, n));
        assert(is_digit(digits[n]));
        assert(longer.last() == digits[n]);
        lemma_digits_value_not_negative(digits.subrange(0, n));
        lemma_digits_value_grows(digits, n + 1);
    }
}

/// A string of digits spells no negative number.
pub proof fn lemma_digits_value_not_negative(digits: Seq<char>)
    requires
        all_digits(digits),
    ensures
        0 <= digits_value(digits),
    decreases digits.len(),
{
    if digits.len() > 0 {
        assert(is_digit(digits.last()));
        lemma_digits_value_not_negative(digits.drop_last());
    }
}

/// Reads a decimal `i32` as `str::parse` does: `None` for the empty string,
/// a lone sign, any character that is no digit, and a value out of range.
pub fn parse_i32(text: &str) -> (number: Option<i32>)
    ensures
        number == decimal_i32(text@),
{
    let length = text.unicode_len();
    if length == 0 {
        return None;
    }
    let first = text.get_char(0);
    let negative = first == '-';
    let start: usize = if first == '-' || first == '+' { 1 } else { 0 };
    let ghost digits = unsigned_part(text@);
    if start == length {
        return None;
    }
    let mut i: usize = start;
    while i < length
        invariant
            start <= i <= length,
            length == text@.len(),
            digits == text@.subrange(start as int, length as int),
            digits == unsigned_part(text@),
            forall|j: int| 0 <= j < i - start ==> is_digit(#[trigger] digits[j]),
        decreases length - i,
    {
        let c = text.get_char(i);
        if !('0' <= c && c <= '9') {
            assert(!is_digit(digits[i - start]));
            return None;
        }
        i += 1;
    }
    assert(all_digits(digits));
    let mut value: i64 = 0;
    let mut k: usize = start;
    while k < length
        invariant
            start <= k <= length,
            length == text@.len(),
            digits == text@.subrange(start as int, length as int),
            digits == unsigned_part(text@),
            digits.len() > 0,
            negative == (text@[0] == '-'),
            all_digits(digits),
            value == digits_value(digits.subrange(0, k - start)),
            0 <= value <= 0x8000_0000,
        decreases length - k,
    {
        let c = text.get_char(k);
        assert(is_digit(digits[k - start]) && digits[k - start] == c);
        let digit: i64 = (c as u32 - '0' as u32) as i64;
        proof {
            let longer = digits.subrange(0, k - start + 1);
            assert(longer.drop_last() =~= digits.subrange(0, k - start));
            assert(longer.last() == c);
            lemma_digits_value_grows(digits, k - start + 1);
        }
        value = value * 10 + digit;
        if value > 0x8000_0000 {
            return None;
        }
        k += 1;
    }
    assert(digits.subrange(0, length - start) =~= digits);
    if negative {
        Some((-value) as i32)
    } else if value == 0x8000_0000 {
        None
    } else {
        Some(value as i32)
    }
}

/// The character that stands for the digit `digit`.
pub open spec fn digit_char(digit: int) -> char {
    ('0' as u32 + digit) as char
}

/// The decimal digits of `number`, without leading zeros.
pub open spec fn digits_of(number: nat) -> Seq<char>
    decreases number,
{
    if number < 10 {
        seq![digit_char(number as int)]
    } else {
        digits_of(number / 10).push(digit_char((number % 10) as int))
    }
}

/// `number` in decimal: its digits, behind a `-` where it is negative.
pub open spec fn decimal_text(number: int) -> Seq<char> {
    if number < 0 {
        seq!['-'] + digits_of((-number) as nat)
    } else {
        digits_of(number as nat)
    }
}

/// The digits of a number are digits, and spell the number.
pub proof fn lemma_digits_of_spell_the_number(number: nat)
    ensures
        digits_of(number).len() > 0,
        all_digits(digits_of(number)),
        digits_value(digits_of(number)) == number,
    decreases number,
{
    if number < 10 {
        let digits = digits_of(number);
        assert(digits.drop_last() =~= Seq::<char>::empty());
        assert(digits.last() as u32 == '0' as u32 + number);
        assert(digits_value(digits.drop_last()) == 0);
        assert(is_digit(digits[0]));
    } else {
        let digits = digits_of(number);
        lemma_digits_of_spell_the_number(number / 10);
        assert(digits.drop_last() =~= digits_of(number / 10));
        assert(digits.last() as u32 == '0' as u32 + number % 10);
        assert(is_digit(digits.last()));
        assert forall|i: int| 0 <= i < digits.len() implies is_digit(#[trigger] digits[i]) by {
            if i < digits.len() - 1 {
                assert(digits[i] == digits_of(number / 10)[i]);
            }
        }
    }
}

/// What is written is read back: the decimal text of an `i32` spells
/// that `i32`.
pub proof fn lemma_decimal_text_is_read_back(number: i32)
    ensures
        decimal_i32(decimal_text(number as int)) == Some(number),
{
    let text = decimal_text(number as int);
    if number < 0 {
        let digits = digits_of((-number) as nat);
        lemma_digits_of_spell_the_number((-number) as nat);
        assert(text[0] == '-');
        assert(unsigned_part(text) =~= digits);
    } else {
        lemma_digits_of_spell_the_number(number as nat);
        assert(is_digit(text[0]));
        assert(unsigned_part(text) =~= text);
    }
}

/// The text of one digit.
fn digit_text(digit: u32) -> (text: &'static str)
    requires
        digit < 10,
    ensures
        text@ == seq![digit_char(digit as int)],
{
    proof {
        reveal_strlit("0");
        reveal_strlit("1");
        reveal_strlit("2");
        reveal_strlit("3");
        reveal_strlit("4");
        reveal_strlit("5");
        reveal_strlit("6");
        reveal_strlit("7");
        reveal_strlit("8");
        reveal_strlit("9");
    }
    let text = match digit {
        0 => "0",
        1 => "1",
        2 => "2",
        3 => "3",
        4 => "4",
        5 => "5",
        6 => "6",
        7 => "7",
        8 => "8",
        _ => "9",
    };
    assert(text@ =~= seq![digit_char(digit as int)]);
    text
}

/// Writes the decimal digits of `number` behind `text`.
fn append_digits(text: &mut String, number: u32)
    ensures
        final(text)@ == old(text)@ + digits_of(number as nat),
    decreases number,
{
    if number >= 10 {
        append_digits(text, number / 10);
    }
    let ghost before = text@;
    text.append(digit_text(number % 10));
    if number >= 10 {
        assert(text@ =~= old(text)@ + digits_of(number as nat));
    }
}

/// Writes `number` behind `text`, in decimal, as `Display` writes an `i32`:
/// its digits without leading zeros, behind a `-` where it is negative.
pub fn append_i32(text: &mut String, number: i32)
    ensures
        final(text)@ == old(text)@ + decimal_text(number as int),
{
    proof {
        reveal_strlit("-");
    }
    if number < 0 {
        text.append("-");
        assert(text@ =~= old(text)@ + seq!['-']);
        let magnitude: u32 = (-(number as i64)) as u32;
        append_digits(text, magnitude);
        assert(text@ =~= old(text)@ + decimal_text(number as int));
    } else {
        append_digits(text, number as u32);
    }
}

} // verus!
