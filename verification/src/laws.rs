//! What holds of the codec for every value, text and policy.

use vstd::prelude::*;
use crate::codec::{decoded, digit_portion, encoded, has_prefix, parsed};
use crate::digits::{
    all_hex_digits, digit_value, digits_of, digits_value, is_digit_of_case, is_hex_digit,
    lemma_digits_of,
};
use crate::error::DecodeError;
use crate::format::{Case, Format, Prefix};

verus! {

/// Whether `a` and `b` are the same character or the same hex digit in
/// different cases.
pub open spec fn same_digit(a: char, b: char) -> bool {
    a == b || (is_hex_digit(a) && is_hex_digit(b) && digit_value(a) == digit_value(b))
}

/// Whether `s` and `t` differ at most in the case of their hex digits.
pub open spec fn same_digits(s: Seq<char>, t: Seq<char>) -> bool {
    &&& s.len() == t.len()
    &&& forall|i: int| 0 <= i < s.len() ==> same_digit(#[trigger] s[i], t[i])
}

/// The shape of encoded text: it carries the prefix exactly where the
/// policy requires it, and its digit portion is the shortest numeral of the
/// value, at least one digit long, every digit in the policy's case.
pub proof fn lemma_encoded_shape(value: nat, format: Format)
    ensures
        has_prefix(encoded(value, format)) <==> format.prefix == Prefix::Required,
        digit_portion(encoded(value, format), format) == digits_of(value, format.case),
        digits_of(value, format.case).len() >= 1,
        forall|i: int|
            0 <= i < digits_of(value, format.case).len() ==> is_digit_of_case(
                #[trigger] digits_of(value, format.case)[i],
                format.case,
            ),
{
    let digits = digits_of(value, format.case);
    lemma_digits_of(value, format.case);
    match format.prefix {
        Prefix::Absent => {
            // The second character of a numeral is a digit, never `x`.
            if digits.len() >= 2 {
                assert(is_hex_digit(digits[1]));
            }
        },
        Prefix::Required => {
            assert((seq!['0', 'x'] + digits).skip(2) =~= digits);
        },
    }
}

/// Reading back, under the same policy, the text of a value that fits the
/// width gives that value.
pub proof fn lemma_round_trip(value: u64, format: Format, max: u64)
    requires
        value <= max,
    ensures
        decoded(encoded(value as nat, format), format, max) == Ok::<u64, DecodeError>(value),
{
    lemma_encoded_shape(value as nat, format);
    lemma_digits_of(value as nat, format.case);
}

/// Lower-case encoding emits no `A-F` and upper-case encoding no `a-f`
/// among the digits, and a prefix is always the two characters `0x`.
pub proof fn lemma_encoded_case(value: nat, format: Format)
    ensures
        forall|i: int|
            0 <= i < digit_portion(encoded(value, format), format).len() ==> {
                let c = #[trigger] digit_portion(encoded(value, format), format)[i];
                &&& format.case == Case::Lower ==> !('A' <= c <= 'F')
                &&& format.case == Case::Upper ==> !('a' <= c <= 'f')
            },
        format.prefix == Prefix::Required ==> encoded(value, format).take(2) == seq!['0', 'x'],
{
    lemma_encoded_shape(value, format);
    let digits = digits_of(value, format.case);
    assert forall|i: int| 0 <= i < digits.len() implies {
        let c = #[trigger] digits[i];
        &&& format.case == Case::Lower ==> !('A' <= c <= 'F')
        &&& format.case == Case::Upper ==> !('a' <= c <= 'f')
    } by {
        assert(is_digit_of_case(digits[i], format.case));
    }
    if format.prefix == Prefix::Required {
        assert(encoded(value, format).take(2) =~= seq!['0', 'x']);
    }
}

/// Digit strings that differ only in the case of their digits are hex
/// together or not at all, and where they are, denote the same number.
pub proof fn lemma_same_digits_same_value(s: Seq<char>, t: Seq<char>)
    requires
        same_digits(s, t),
    ensures
        all_hex_digits(s) == all_hex_digits(t),
        all_hex_digits(s) ==> digits_value(s) == digits_value(t),
    decreases s.len(),
{
    if all_hex_digits(s) {
        assert forall|i: int| 0 <= i < t.len() implies is_hex_digit(#[trigger] t[i]) by {
            assert(same_digit(s[i], t[i]));
        }
    }
    if all_hex_digits(t) {
        assert forall|i: int| 0 <= i < s.len() implies is_hex_digit(#[trigger] s[i]) by {
            assert(same_digit(s[i], t[i]));
        }
    }
    if s.len() > 0 && all_hex_digits(s) {
        assert(same_digit(s.last(), t.last()));
        lemma_same_digits_same_value(s.drop_last(), t.drop_last());
    }
}

/// Decoding ignores the case of digits: texts that differ only there are
/// read alike, as a value or as a rejection, under every policy.
pub proof fn lemma_decode_ignores_digit_case(s: Seq<char>, t: Seq<char>, format: Format, max: u64)
    requires
        same_digits(s, t),
    ensures
        decoded(s, format, max) == decoded(t, format, max),
{
    // Neither `0` nor `x` changes with case, so both carry the prefix or
    // neither does.
    assert(has_prefix(s) == has_prefix(t)) by {
        if s.len() >= 2 {
            assert(same_digit(s[0], t[0]));
            assert(same_digit(s[1], t[1]));
        }
    }
    let sd = digit_portion(s, format);
    let td = digit_portion(t, format);
    if format.prefix == Prefix::Absent || has_prefix(s) {
        assert forall|i: int| 0 <= i < sd.len() implies same_digit(#[trigger] sd[i], td[i]) by {
            let at = i + s.len() - sd.len();
            assert(same_digit(s[at], t[at]));
        }
        lemma_same_digits_same_value(sd, td);
    }
}

/// The prefix rule is strict both ways: text written under a policy with
/// the prefix is refused as `UnexpectedPrefix` under a policy without it,
/// and text written without the prefix is refused as `MissingPrefix` under
/// a policy that requires it, whatever the value and the width.
pub proof fn lemma_prefix_is_strict(value: nat, written: Format, read: Format, max: u64)
    requires
        written.prefix != read.prefix,
    ensures
        read.prefix == Prefix::Absent ==> decoded(encoded(value, written), read, max) == Err::<
            u64,
            DecodeError,
        >(DecodeError::UnexpectedPrefix),
        read.prefix == Prefix::Required ==> decoded(encoded(value, written), read, max) == Err::<
            u64,
            DecodeError,
        >(DecodeError::MissingPrefix),
{
    lemma_encoded_shape(value, written);
}

/// No string of hex digits that denotes a number is shorter than the
/// numeral that encoding writes for it.
pub proof fn lemma_digits_shortest(s: Seq<char>, case: Case)
    requires
        s.len() >= 1,
        all_hex_digits(s),
    ensures
        digits_of(digits_value(s), case).len() <= s.len(),
    decreases s.len(),
{
    let n = digits_value(s);
    let front = s.drop_last();
    assert(digit_value(s.last()) < 16) by {
        assert(is_hex_digit(s.last()));
    }
    if front.len() == 0 {
        assert(digits_value(front) == 0);
    }
    if n >= 16 {
        assert(all_hex_digits(front)) by {
            assert forall|i: int| 0 <= i < front.len() implies is_hex_digit(
                #[trigger] front[i],
            ) by {
                assert(front[i] == s[i]);
            }
        }
        assert(n / 16 == digits_value(front));
        lemma_digits_shortest(front, case);
    }
}

/// A value that decoding accepts fits the width.
pub proof fn lemma_decoded_fits(text: Seq<char>, format: Format, max: u64)
    ensures
        decoded(text, format, max) matches Ok(value) ==> value <= max,
{
}

} // verus!
