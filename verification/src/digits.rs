//! Hexadecimal digits and positional notation, as mathematics and as code.

use vstd::prelude::*;
use crate::format::Case;

verus! {

/// The character that stands for the digit `d` (below sixteen) in `case`.
pub open spec fn digit_char(d: nat, case: Case) -> char {
    if d < 10 {
        ('0' as nat + d) as char
    } else if case == Case::Lower {
        ('a' as nat + d - 10) as char
    } else {
        ('A' as nat + d - 10) as char
    }
}

/// Whether `c` is one of `0-9`, `a-f`, `A-F`.
pub open spec fn is_hex_digit(c: char) -> bool {
    ||| '0' <= c <= '9'
    ||| 'a' <= c <= 'f'
    ||| 'A' <= c <= 'F'
}

/// Whether `c` may appear among digits written in `case`: a decimal digit,
/// or a letter `a-f` for lower case, `A-F` for upper case.
pub open spec fn is_digit_of_case(c: char, case: Case) -> bool {
    ||| '0' <= c <= '9'
    ||| case == Case::Lower && 'a' <= c <= 'f'
    ||| case == Case::Upper && 'A' <= c <= 'F'
}

/// The number that the hex digit `c` stands for, whatever its case.
pub open spec fn digit_value(c: char) -> nat {
    if '0' <= c <= '9' {
        (c as nat - '0' as nat) as nat
    } else if 'a' <= c <= 'f' {
        (c as nat - 'a' as nat + 10) as nat
    } else {
        (c as nat - 'A' as nat + 10) as nat
    }
}

/// Whether every character of `s` is a hex digit.
pub open spec fn all_hex_digits(s: Seq<char>) -> bool {
    forall|i: int| 0 <= i < s.len() ==> is_hex_digit(#[trigger] s[i])
}

/// The shortest base-16 numeral of `n`, most significant digit first,
/// with letters in `case`. Zero is the single digit `0`.
pub open spec fn digits_of(n: nat, case: Case) -> Seq<char>
    decreases n,
{
    if n < 16 {
        seq![digit_char(n, case)]
    } else {
        digits_of(n / 16, case).push(digit_char(n % 16, case))
    }
}

/// The number that `s` denotes when read as a base-16 numeral, most
/// significant digit first. Meaningful where `all_hex_digits(s)`.
pub open spec fn digits_value(s: Seq<char>) -> nat
    decreases s.len(),
{
    if s.len() == 0 {
        0
    } else {
        16 * digits_value(s.drop_last()) + digit_value(s.last())
    }
}

/// The shortest base-10 numeral of `n`, most significant digit first.
/// Zero is the single digit `0`.
pub open spec fn decimal_of(n: nat) -> Seq<char>
    decreases n,
{
    if n < 10 {
        seq![digit_char(n, Case::Lower)]
    } else {
        decimal_of(n / 10).push(digit_char(n % 10, Case::Lower))
    }
}

/// A digit's character is a hex digit of its case and stands for that digit.
pub proof fn lemma_digit_char(d: nat, case: Case)
    requires
        d < 16,
    ensures
        is_hex_digit(digit_char(d, case)),
        is_digit_of_case(digit_char(d, case), case),
        digit_value(digit_char(d, case)) == d,
{
}

/// Reading a numeral that was extended by one digit on the right.
pub proof fn lemma_value_push(s: Seq<char>, c: char)
    ensures
        digits_value(s.push(c)) == 16 * digits_value(s) + digit_value(c),
{
    assert(s.push(c).drop_last() =~= s);
}

/// A numeral never denotes less than any of its leading parts.
pub proof fn lemma_value_of_leading_part(s: Seq<char>, k: int)
    requires
        0 <= k <= s.len(),
    ensures
        digits_value(s.take(k)) <= digits_value(s),
    decreases s.len(),
{
    if k < s.len() {
        lemma_value_of_leading_part(s.drop_last(), k);
        assert(s.drop_last().take(k) =~= s.take(k));
    } else {
        assert(s.take(k) =~= s);
    }
}

/// The numeral of `n` consists of hex digits of its case and denotes `n`.
pub proof fn lemma_digits_of(n: nat, case: Case)
    ensures
        digits_of(n, case).len() >= 1,
        all_hex_digits(digits_of(n, case)),
        forall|i: int|
            0 <= i < digits_of(n, case).len() ==> is_digit_of_case(
                #[trigger] digits_of(n, case)[i],
                case,
            ),
        digits_value(digits_of(n, case)) == n,
    decreases n,
{
    if n < 16 {
        lemma_digit_char(n, case);
        lemma_value_push(Seq::<char>::empty(), digit_char(n, case));
    } else {
        lemma_digits_of(n / 16, case);
        lemma_digit_char(n % 16, case);
        lemma_value_push(digits_of(n / 16, case), digit_char(n % 16, case));
    }
}

/// The hex digit that `c` stands for, or `None` where `c` is no hex digit.
pub fn digit_of_char(c: char) -> (digit: Option<u8>)
    ensures
        digit is Some <==> is_hex_digit(c),
        digit matches Some(d) ==> d == digit_value(c) && d < 16,
{
    if '0' <= c && c <= '9' {
        Some((c as u32 - '0' as u32) as u8)
    } else if 'a' <= c && c <= 'f' {
        Some((c as u32 - 'a' as u32 + 10) as u8)
    } else if 'A' <= c && c <= 'F' {
        Some((c as u32 - 'A' as u32 + 10) as u8)
    } else {
        None
    }
}

/// The one-character text of the digit `d` in `case`.
pub fn digit_str(d: u8, case: Case) -> (text: &'static str)
    requires
        d < 16,
    ensures
        text@ == seq![digit_char(d as nat, case)],
{
    proof {
        reveal_strlit("0");
        reveal_strlit("1");
        reveal_strlit("2");
        reveal_strlit("3");
        reveal_strlit("4");
        reveal_strlit("5");
        reveal_strlit("6");
        reveal_strlit("7");
        reveal_strlit("8");
        reveal_strlit("9");
        reveal_strlit("a");
        reveal_strlit("b");
        reveal_strlit("c");
        reveal_strlit("d");
        reveal_strlit("e");
        reveal_strlit("f");
        reveal_strlit("A");
        reveal_strlit("B");
        reveal_strlit("C");
        reveal_strlit("D");
        reveal_strlit("E");
        reveal_strlit("F");
    }
    let lower = case == Case::Lower;
    match d {
        0 => "0",
        1 => "1",
        2 => "2",
        3 => "3",
        4 => "4",
        5 => "5",
        6 => "6",
        7 => "7",
        8 => "8",
        9 => "9",
        10 => if lower { "a" } else { "A" },
        11 => if lower { "b" } else { "B" },
        12 => if lower { "c" } else { "C" },
        13 => if lower { "d" } else { "D" },
        14 => if lower { "e" } else { "E" },
        _ => if lower { "f" } else { "F" },
    }
}

/// Appends the shortest base-16 numeral of `n`, in `case`, to `out`.
pub fn push_digits(out: &mut String, n: u64, case: Case)
    ensures
        final(out)@ == old(out)@ + digits_of(n as nat, case),
    decreases n,
{
    if n >= 16 {
        push_digits(out, n / 16, case);
    }
    out.append(digit_str((n % 16) as u8, case));
}

/// Appends the shortest base-10 numeral of `n` to `out`.
pub fn push_decimal(out: &mut String, n: u64)
    ensures
        final(out)@ == old(out)@ + decimal_of(n as nat),
    decreases n,
{
    if n >= 10 {
        push_decimal(out, n / 10);
    }
    out.append(digit_str((n % 10) as u8, Case::Lower));
}

} // verus!
