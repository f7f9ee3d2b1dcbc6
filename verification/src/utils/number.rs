use vstd::prelude::*;
use crate::utils::text::characters;

verus! {

pub open spec fn spec_is_digit(c: char) -> bool {
    48 <= c as u32 <= 57
}

pub open spec fn spec_digit_value(c: char) -> nat {
    (c as u32 - 48) as nat
}

pub open spec fn spec_all_digits(digits: Seq<char>) -> bool {
    forall|i: int| 0 <= i < digits.len() ==> spec_is_digit(#[trigger] digits[i])
}

/// The number that a run of decimal digits writes.
pub open spec fn spec_decimal_value(digits: Seq<char>) -> nat
    decreases digits.len(),
{
    if digits.len() == 0 {
        0
    } else {
        spec_decimal_value(digits.drop_last()) * 10 + spec_digit_value(digits.last())
    }
}

/// `text` without the plus sign that may stand in front of a number.
pub open spec fn spec_unsigned_part(text: Seq<char>) -> Seq<char> {
    if text.len() > 0 && text[0] == '+' {
        text.skip(1)
    } else {
        text
    }
}

/// The number that `text` writes: decimal digits, at least one, after at most
/// one plus sign, with nothing before, between or after them, and a value
/// that sixty-four bits can hold.
pub open spec fn spec_parse_u64(text: Seq<char>) -> Option<u64> {
    let digits = spec_unsigned_part(text);
    if digits.len() > 0 && spec_all_digits(digits) && spec_decimal_value(digits) <= u64::MAX {
        Some(spec_decimal_value(digits) as u64)
    } else {
        None
    }
}

/// More digits never write a smaller number.
proof fn lemma_decimal_value_grows(digits: Seq<char>, shorter: int)
    requires
        0 <= shorter <= digits.len(),
    ensures
        spec_decimal_value(digits.take(shorter)) <= spec_decimal_value(digits),
    decreases digits.len() - shorter,
{
    if shorter == digits.len() {
        assert(digits.take(shorter) =~= digits);
    } else {
        lemma_decimal_value_grows(digits, shorter + 1);
        let longer = digits.take(shorter + 1);
        assert(longer.drop_last() =~= digits.take(shorter));
    }
}

/// The value of a decimal digit; `None` for any other character.
pub fn digit_of(c: char) -> (digit: Option<u64>)
    ensures
        match digit {
            Some(digit) => spec_is_digit(c) && digit == spec_digit_value(c),
            None => !spec_is_digit(c),
        },
{
    match c {
        '0' => Some(0),
        '1' => Some(1),
        '2' => Some(2),
        '3' => Some(3),
        '4' => Some(4),
        '5' => Some(5),
        '6' => Some(6),
        '7' => Some(7),
        '8' => Some(8),
        '9' => Some(9),
        _ => None,
    }
}

/// Reads an unsigned decimal number.
pub fn parse_u64(text: &str) -> (number: Option<u64>)
    ensures
        number == spec_parse_u64(text@),
{
    let list = characters(text);
    let start: usize = if list.len() > 0 && list[0] == '+' {
        1
    } else {
        0
    };
    let ghost digits = spec_unsigned_part(text@);
    assert(digits =~= list@.skip(start as int));
    if start == list.len() {
        return None;
    }
    let mut value: u64 = 0;
    let mut at: usize = start;
    while at < list.len()
        invariant
            list@ == text@,
            digits == spec_unsigned_part(text@),
            digits == list@.skip(start as int),
            start <= at <= list@.len(),
            spec_all_digits(digits.take(at - start)),
            value == spec_decimal_value(digits.take(at - start)),
        decreases list@.len() - at,
    {
        let next = digit_of(list[at]);
        let ghost position = at - start;
        let ghost longer = digits.take(position + 1);
        assert(digits[position] == list@[at as int]);
        assert(longer.drop_last() =~= digits.take(position));
        assert(longer.last() == digits[position]);
        if next.is_none() {
            assert(!spec_is_digit(digits[position]));
            return None;
        }
        let digit = next.unwrap();
        if value > (u64::MAX - digit) / 10 {
            proof {
                assert(spec_decimal_value(longer) > u64::MAX);
                lemma_decimal_value_grows(digits, position + 1);
            }
            return None;
        }
        value = value * 10 + digit;
        at = at + 1;
        assert forall|i: int| 0 <= i < longer.len() implies spec_is_digit(
            #[trigger] longer[i],
        ) by {
            if i < position {
                assert(digits.take(position)[i] == longer[i]);
            }
        }
    }
    assert(digits.take(at - start) =~= digits);
    Some(value)
}

} // verus!
