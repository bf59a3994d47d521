//! The hex codec: how an integer is written as text under a formatting
//! policy, and how text is read back, with every way of being rejected.

use std::str::Chars;
use vstd::prelude::*;
use vstd::std_specs::iter::IteratorSpec;
use crate::digits::{
    all_hex_digits, digit_of_char, digits_of, digits_value, is_hex_digit,
    lemma_value_of_leading_part, push_digits,
};
use crate::error::DecodeError;
use crate::format::{Format, Prefix};

verus! {

/// Whether `text` starts with the two characters `0x`.
pub open spec fn has_prefix(text: Seq<char>) -> bool {
    text.len() >= 2 && text[0] == '0' && text[1] == 'x'
}

/// The text of `value` under `format`: the shortest numeral in the policy's
/// case, after `0x` where the policy requires the prefix.
pub open spec fn encoded(value: nat, format: Format) -> Seq<char> {
    match format.prefix {
        Prefix::Absent => digits_of(value, format.case),
        Prefix::Required => seq!['0', 'x'] + digits_of(value, format.case),
    }
}

/// The part of `text` that holds the digits under `format`: all of it, or
/// what follows the two characters of the prefix.
pub open spec fn digit_portion(text: Seq<char>, format: Format) -> Seq<char> {
    match format.prefix {
        Prefix::Absent => text,
        Prefix::Required => text.skip(2),
    }
}

/// What reading the bare digit string `digits` gives for a width whose
/// largest value is `max`.
pub open spec fn parsed(digits: Seq<char>, max: u64) -> Result<u64, DecodeError> {
    if digits.len() == 0 {
        Err(DecodeError::Empty)
    } else if !all_hex_digits(digits) {
        Err(DecodeError::InvalidDigit)
    } else if digits_value(digits) > max {
        Err(DecodeError::Overflow)
    } else {
        Ok(digits_value(digits) as u64)
    }
}

/// What reading `text` under `format` gives for a width whose largest value
/// is `max`. The prefix rule is checked first, then the digits are read.
pub open spec fn decoded(text: Seq<char>, format: Format, max: u64) -> Result<u64, DecodeError> {
    match format.prefix {
        Prefix::Absent => if has_prefix(text) {
            Err(DecodeError::UnexpectedPrefix)
        } else {
            parsed(digit_portion(text, format), max)
        },
        Prefix::Required => if has_prefix(text) {
            parsed(digit_portion(text, format), max)
        } else {
            Err(DecodeError::MissingPrefix)
        },
    }
}

/// Writes `value` as text under `format`.
pub fn encode(value: u64, format: Format) -> (text: String)
    ensures
        text@ == encoded(value as nat, format),
{
    let mut text = String::new();
    if format.prefix == Prefix::Required {
        proof {
            reveal_strlit("0x");
        }
        text.append("0x");
    }
    push_digits(&mut text, value, format.case);
    text
}

/// Whether `text` starts with `0x`.
fn starts_with_prefix(text: &str) -> (found: bool)
    ensures
        found == has_prefix(text@),
{
    let mut chars = text.chars();
    match chars.next() {
        Some('0') => match chars.next() {
            Some('x') => true,
            _ => false,
        },
        _ => false,
    }
}

/// Reads what is left in `chars` as a bare digit string.
fn parse_remaining(chars: Chars<'_>, max: u64) -> (result: Result<u64, DecodeError>)
    requires
        chars.decrease() is Some,
    ensures
        result == parsed(chars.remaining(), max),
{
    let ghost digits = chars.remaining();
    let ghost mut seen: int = 0;
    let mut rest = chars;
    let mut value: u64 = 0;
    let mut any = false;
    let mut overflow = false;
    loop
        invariant
            0 <= seen <= digits.len(),
            digits == chars.remaining(),
            rest.decrease() is Some,
            rest.remaining() == digits.skip(seen),
            all_hex_digits(digits.take(seen)),
            any == (seen > 0),
            overflow ==> digits_value(digits.take(seen)) > max,
            !overflow ==> value == digits_value(digits.take(seen)) && value <= max,
        ensures
            seen == digits.len(),
            all_hex_digits(digits),
            any == (digits.len() > 0),
            overflow ==> digits_value(digits) > max,
            !overflow ==> value == digits_value(digits) && value <= max,
        decreases rest.decrease()->0,
    {
        match rest.next() {
            None => {
                assert(digits.take(seen) =~= digits);
                break ;
            },
            Some(c) => {
                assert(c == digits[seen]);
                assert(digits.take(seen + 1).drop_last() =~= digits.take(seen));
                match digit_of_char(c) {
                    None => {
                        assert(!is_hex_digit(digits[seen]));
                        return Err(DecodeError::InvalidDigit);
                    },
                    Some(d) => {
                        if !overflow {
                            if value > max / 16 {
                                overflow = true;
                            } else {
                                let shifted: u64 = value * 16;
                                if d as u64 > max - shifted {
                                    overflow = true;
                                } else {
                                    value = shifted + d as u64;
                                }
                            }
                        } else {
                            proof {
                                // Once above the limit, always above it.
                                lemma_value_of_leading_part(digits.take(seen + 1), seen);
                                assert(digits.take(seen + 1).take(seen) =~= digits.take(seen));
                            }
                        }
                        any = true;
                        proof {
                            seen = seen + 1;
                        }
                    },
                }
            },
        }
    }
    if !any {
        Err(DecodeError::Empty)
    } else if overflow {
        Err(DecodeError::Overflow)
    } else {
        Ok(value)
    }
}

/// Reads `text` under `format` for a width whose largest value is `max`.
pub fn decode(text: &str, format: Format, max: u64) -> (result: Result<u64, DecodeError>)
    ensures
        result == decoded(text@, format, max),
{
    let prefixed = starts_with_prefix(text);
    let mut chars = text.chars();
    match format.prefix {
        Prefix::Absent => {
            if prefixed {
                return Err(DecodeError::UnexpectedPrefix);
            }
        },
        Prefix::Required => {
            if !prefixed {
                return Err(DecodeError::MissingPrefix);
            }
            let _ = chars.next();
            let _ = chars.next();
            assert(chars.remaining() =~= text@.skip(2));
        },
    }
    parse_remaining(chars, max)
}

} // verus!
