//! Text building and reading with exact contracts.
//!
//! The messages that this library puts into errors and responses are part of
//! its contract, so they are put together here from pieces whose characters
//! are known.

use vstd::prelude::*;
use vstd::string::StringExecFns;
use vstd::utf8::{decode_utf8, valid_utf8};

verus! {

/// `String::push` appends one character at the end of the string.
pub assume_specification[ std::string::String::push ](
    text: &mut std::string::String,
    character: char,
)
    ensures
        final(text)@ == old(text)@.push(character),
;

/// Two string slices are equal exactly when they hold the same characters.
pub assume_specification[ <str as PartialEq>::eq ](left: &str, right: &str) -> (same: bool)
    ensures
        same == (left@ == right@),
;

/// `String::from_utf8` accepts exactly the valid UTF-8 byte sequences, and
/// keeps the characters that they encode.
#[verifier::external_body]
pub(crate) fn string_from_utf8(bytes: Vec<u8>) -> (text: Option<String>)
    ensures
        text is Some <==> valid_utf8(bytes@),
        text matches Some(decoded) ==> decoded@ == decode_utf8(bytes@),
{
    String::from_utf8(bytes).ok()
}

/// The characters of each string.
pub open spec fn texts(strings: Seq<String>) -> Seq<Seq<char>> {
    strings.map_values(|text: String| text@)
}

/// The characters of an optional string.
pub open spec fn opt_text(string: Option<String>) -> Option<Seq<char>> {
    match string {
        Some(text) => Some(text@),
        None => None,
    }
}

/// Both texts, one after the other.
pub fn concat2(first: &str, second: &str) -> (text: String)
    ensures
        text@ == first@ + second@,
{
    first.to_owned().concat(second)
}

/// The three texts, one after the other.
pub fn concat3(first: &str, second: &str, third: &str) -> (text: String)
    ensures
        text@ == first@ + second@ + third@,
{
    first.to_owned().concat(second).concat(third)
}

/// Copies an optional string.
pub fn copy_opt_text(string: &Option<String>) -> (copy: Option<String>)
    ensures
        copy == string,
        opt_text(copy) == opt_text(*string),
{
    match string {
        Some(text) => Some(text.clone()),
        None => None,
    }
}

/// Copies a list of strings.
pub fn copy_texts(strings: &Vec<String>) -> (copy: Vec<String>)
    ensures
        copy@ == strings@,
        texts(copy@) == texts(strings@),
{
    let copy = strings.clone();
    assert(copy@ =~= strings@);
    copy
}

/// Whether one of the names is the given text.
pub open spec fn names_text(names: Seq<&str>, text: Seq<char>) -> bool {
    exists|i: int| 0 <= i < names.len() && (#[trigger] names[i])@ == text
}

/// Looks a text up in a list of names.
pub fn one_of(text: &str, names: &[&str]) -> (found: bool)
    ensures
        found == names_text(names@, text@),
{
    for i in 0..names.len()
        invariant
            forall|j: int| 0 <= j < i ==> (#[trigger] names@[j])@ != text@,
    {
        if names[i].eq(text) {
            return true;
        }
    }
    false
}

/// The texts with the separator between each two neighbours.
pub open spec fn joined(parts: Seq<Seq<char>>, separator: Seq<char>) -> Seq<char>
    decreases parts.len(),
{
    if parts.len() == 0 {
        seq![]
    } else if parts.len() == 1 {
        parts[0]
    } else {
        joined(parts.drop_last(), separator) + separator + parts.last()
    }
}

/// Joins the texts with the separator between each two neighbours.
pub fn join(parts: &Vec<String>, separator: &str) -> (text: String)
    ensures
        text@ == joined(texts(parts@), separator@),
{
    let mut text = String::new();
    for i in 0..parts.len()
        invariant
            text@ == joined(texts(parts@).take(i as int), separator@),
    {
        let ghost grown = texts(parts@).take(i as int + 1);
        assert(grown.drop_last() =~= texts(parts@).take(i as int));
        if i > 0 {
            text.append(separator);
        }
        text.append(parts[i].as_str());
        assert(grown.last() == parts@[i as int]@);
    }
    assert(texts(parts@).take(parts@.len() as int) =~= texts(parts@));
    text
}

/// The character of a decimal digit.
pub open spec fn digit_char(digit: int) -> char {
    (digit + '0' as int) as char
}

/// A number in decimal notation.
pub open spec fn decimal(number: nat) -> Seq<char>
    decreases number,
{
    if number < 10 {
        seq![digit_char(number as int)]
    } else {
        decimal(number / 10).push(digit_char(number as int % 10))
    }
}

/// Writes a number in decimal notation.
pub fn decimal_text(number: u64) -> (text: String)
    ensures
        text@ == decimal(number as nat),
    decreases number,
{
    let digit: u8 = (number % 10) as u8;
    let character = (digit + 48) as char;
    let mut text = if number < 10 {
        String::new()
    } else {
        decimal_text(number / 10)
    };
    text.push(character);
    assert(text@ =~= decimal(number as nat));
    text
}

/// Different numbers have different decimal notations.
pub proof fn lemma_decimal_is_injective(first: nat, second: nat)
    requires
        decimal(first) == decimal(second),
    ensures
        first == second,
    decreases first,
{
    assert(decimal(first).last() == digit_char(first as int % 10));
    assert(decimal(second).last() == digit_char(second as int % 10));
    if first >= 10 {
        assert(decimal(first / 10) =~= decimal(first).drop_last());
        assert(decimal(first / 10).len() > 0);
    }
    if second >= 10 {
        assert(decimal(second / 10) =~= decimal(second).drop_last());
        assert(decimal(second / 10).len() > 0);
    }
    if first >= 10 && second >= 10 {
        lemma_decimal_is_injective(first / 10, second / 10);
    }
}

/// Whether a text comes before another one in the order of their characters.
pub open spec fn text_before(first: Seq<char>, second: Seq<char>) -> bool {
    exists|common: int| #[trigger] parts_after(first, second, common)
}

/// Whether two texts agree on the first `common` characters, and the first one
/// then ends or goes on with the lesser character.
pub open spec fn parts_after(first: Seq<char>, second: Seq<char>, common: int) -> bool {
    &&& 0 <= common <= first.len()
    &&& common < second.len()
    &&& first.take(common) == second.take(common)
    &&& common < first.len() ==> first[common] < second[common]
}

/// Whether the character is a decimal digit.
pub open spec fn is_digit(character: char) -> bool {
    '0' <= character <= '9'
}

/// The number that a sequence of decimal digits stands for.
pub open spec fn digits_value(digits: Seq<char>) -> nat
    decreases digits.len(),
{
    if digits.len() == 0 {
        0
    } else {
        digits_value(digits.drop_last()) * 10 + (digits.last() as int - '0' as int) as nat
    }
}

/// The number that a non-empty sequence of decimal digits stands for, if
/// `usize` holds it.
pub open spec fn digits_usize(digits: Seq<char>) -> Option<usize> {
    if digits.len() > 0 && (forall|i: int| 0 <= i < digits.len() ==> is_digit(#[trigger] digits[i]))
        && digits_value(digits) <= usize::MAX {
        Some(digits_value(digits) as usize)
    } else {
        None
    }
}

/// The number that a text stands for: decimal digits after an optional plus
/// sign, and no more than `usize` holds.
pub open spec fn parsed_usize(text: Seq<char>) -> Option<usize> {
    if text.len() > 0 && text[0] == '+' {
        digits_usize(text.skip(1))
    } else {
        digits_usize(text)
    }
}

/// More digits never stand for a smaller number.
proof fn lemma_digits_value_monotonic(digits: Seq<char>, count: int)
    requires
        0 <= count <= digits.len(),
    ensures
        digits_value(digits.take(count)) <= digits_value(digits),
    decreases digits.len() - count,
{
    if count == digits.len() {
        assert(digits.take(count) =~= digits);
    } else {
        lemma_digits_value_monotonic(digits, count + 1);
        assert(digits.take(count + 1).drop_last() =~= digits.take(count));
    }
}

/// Reads a number in decimal notation, with an optional plus sign.
pub fn parse_usize(text: &str) -> (number: Option<usize>)
    ensures
        number == parsed_usize(text@),
{
    let length = text.unicode_len();
    let start: usize = if length > 0 && text.get_char(0) == '+' {
        1
    } else {
        0
    };
    let ghost digits = text@.skip(start as int);
    assert(start == 0 ==> digits =~= text@);
    if start == length {
        return None;
    }
    let mut value: usize = 0;
    let mut i: usize = start;
    while i < length
        invariant
            start <= i <= length == text@.len(),
            digits == text@.skip(start as int),
            value == digits_value(digits.take(i - start)),
            forall|j: int| 0 <= j < i - start ==> is_digit(#[trigger] digits[j]),
            parsed_usize(text@) == digits_usize(digits),
        decreases length - i,
    {
        let character = text.get_char(i);
        assert(digits[i - start] == character);
        if !('0' <= character && character <= '9') {
            return None;
        }
        let digit: usize = character as usize - 48;
        proof {
            assert(digits.take(i - start + 1).drop_last() =~= digits.take(i - start));
            lemma_digits_value_monotonic(digits, i - start + 1);
        }
        let shifted = match value.checked_mul(10) {
            Some(shifted) => shifted,
            None => { return None; },
        };
        value = match shifted.checked_add(digit) {
            Some(sum) => sum,
            None => { return None; },
        };
        i += 1;
    }
    assert(digits.take(digits.len() as int) =~= digits);
    Some(value)
}

/// Joining puts the separator between the parts and nowhere else.
pub proof fn law_joining(parts: Seq<Seq<char>>, last: Seq<char>, separator: Seq<char>)
    ensures
        joined(seq![], separator) == Seq::<char>::empty(),
        joined(seq![last], separator) == last,
        parts.len() > 0 ==> joined(parts.push(last), separator) == joined(parts, separator)
            + separator + last,
{
    let one = seq![last];
    assert(one.drop_last() =~= seq![]);
    assert(joined(one, separator) =~= last);
    assert(parts.push(last).drop_last() =~= parts);
}

/// Decimal notation, digit by digit: a number below ten is its digit, and any other
/// ends in the digit of its remainder.
pub proof fn law_decimal_notation(front: nat, digit: nat)
    requires
        digit < 10,
    ensures
        decimal(digit) == seq![(48 + digit) as char],
        front > 0 ==> decimal(front * 10 + digit) == decimal(front).push((48 + digit) as char),
{
    if front > 0 {
        let number = front * 10 + digit;
        assert(number / 10 == front && number % 10 == digit) by (nonlinear_arith)
            requires
                number == front * 10 + digit,
                digit < 10,
        ;
    }
}

/// Decimal notation is made of digits and stands for its number.
proof fn lemma_decimal_is_read_back(number: nat)
    ensures
        digits_value(decimal(number)) == number,
        decimal(number).len() > 0,
        forall|i: int| 0 <= i < decimal(number).len() ==> is_digit(#[trigger] decimal(number)[i]),
    decreases number,
{
    let text = decimal(number);
    if number < 10 {
        reveal_with_fuel(digits_value, 2);
        assert(text.drop_last() =~= seq![]);
    } else {
        lemma_decimal_is_read_back(number / 10);
        assert(text.drop_last() =~= decimal(number / 10));
        assert forall|i: int| 0 <= i < text.len() implies is_digit(#[trigger] text[i]) by {
            if i < text.len() - 1 {
                assert(text[i] == decimal(number / 10)[i]);
            }
        }
    }
}

/// Every number that fits is read back from its decimal notation, with or without
/// a plus sign, and nothing else is read as a number: not an empty text, not a sign
/// alone, and no text with another character in it.
pub proof fn law_numbers_are_read_back(number: nat, text: Seq<char>, i: int)
    ensures
        number <= usize::MAX ==> parsed_usize(decimal(number)) == Some(number as usize),
        number <= usize::MAX ==> parsed_usize(seq!['+'] + decimal(number)) == Some(number as usize),
        number > usize::MAX ==> parsed_usize(decimal(number)) is None,
        parsed_usize(seq![]) is None,
        parsed_usize(seq!['+']) is None,
        0 < i < text.len() && !('0' <= text[i] <= '9') ==> parsed_usize(text) is None,
        text.len() > 0 && text[0] != '+' && !('0' <= text[0] <= '9') ==> parsed_usize(text) is None,
{
    lemma_decimal_is_read_back(number);
    assert(is_digit(decimal(number)[0]));
    let signed = seq!['+'] + decimal(number);
    assert(signed.skip(1) =~= decimal(number));
    assert(seq!['+'].skip(1).len() == 0);
    if 0 < i < text.len() && !('0' <= text[i] <= '9') {
        assert(!is_digit(text[i]));
        assert(text.skip(1)[i - 1] == text[i]);
    }
    if text.len() > 0 && text[0] != '+' && !('0' <= text[0] <= '9') {
        assert(!is_digit(text[0]));
    }
}

} // verus!
