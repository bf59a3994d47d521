//! The typed handle: one raw integer, tagged at compile time with the
//! policy under which it travels as text.

use std::cmp::Ordering;
use std::ops::{Deref, DerefMut};
use vstd::prelude::*;
use vstd::std_specs::cmp::{PartialEqSpec, PartialOrdSpec};
use crate::codec::{decode, decoded, encode, encoded};
use crate::digits::{decimal_of, push_decimal};
use crate::error::DecodeError;
use crate::format::{Case, Format, Prefix};
use crate::laws::lemma_round_trip;
use crate::width::Width;

verus! {

/// An integer of type `T` that is written as hex text with upper-case
/// digits where `UPPER` holds and with the `0x` prefix where `PREFIXED`
/// holds. It reads, compares and orders as the integer it wraps.
#[derive(Debug, Clone, Copy, Eq, Ord)]
pub struct Hex<T, const UPPER: bool, const PREFIXED: bool> {
    internal: T,
}

impl<T, const UPPER: bool, const PREFIXED: bool> View for Hex<T, UPPER, PREFIXED> {
    type V = T;

    /// The wrapped integer.
    closed spec fn view(&self) -> T {
        self.internal
    }
}

impl<T, const UPPER: bool, const PREFIXED: bool> Hex<T, UPPER, PREFIXED> {
    /// The value that wraps `raw`.
    pub closed spec fn wrap(raw: T) -> Self {
        Hex { internal: raw }
    }

    /// The value that wraps `raw` shows `raw`.
    pub proof fn lemma_wrap_shows(raw: T)
        ensures
            Self::wrap(raw)@ == raw,
    {
    }

    /// A value is the wrapping of the integer it shows, so that two values
    /// that show the same integer are the same value.
    pub proof fn lemma_shown_wraps(self)
        ensures
            Self::wrap(self@) == self,
    {
    }
}

impl<T, const UPPER: bool, const PREFIXED: bool> From<T> for Hex<T, UPPER, PREFIXED> {
    /// Wraps `raw`; every integer of the width is a valid value.
    fn from(raw: T) -> (hex: Self)
        ensures
            hex@ == raw,
    {
        Hex { internal: raw }
    }
}

impl<T, const UPPER: bool, const PREFIXED: bool> vstd::std_specs::convert::FromSpecImpl<T> for Hex<T, UPPER, PREFIXED> {
    open spec fn obeys_from_spec() -> bool {
        true
    }

    open spec fn from_spec(raw: T) -> Self {
        Self::wrap(raw)
    }
}

impl<T, const UPPER: bool, const PREFIXED: bool> Deref for Hex<T, UPPER, PREFIXED> {
    type Target = T;

    /// The wrapped integer, for reading.
    fn deref(&self) -> (raw: &T)
        ensures
            *raw == self@,
    {
        &self.internal
    }
}

impl<T, const UPPER: bool, const PREFIXED: bool> DerefMut for Hex<T, UPPER, PREFIXED> {
    /// The wrapped integer, for overwriting in place.
    fn deref_mut(&mut self) -> (raw: &mut T)
        ensures
            *raw == old(self)@,
            final(self)@ == *final(raw),
    {
        &mut self.internal
    }
}

impl<T: PartialEq, const UPPER: bool, const PREFIXED: bool> PartialEq for Hex<T, UPPER, PREFIXED> {
    /// Whether the wrapped integers are equal.
    fn eq(&self, other: &Self) -> (equal: bool) {
        self.internal == other.internal
    }
}

impl<T: PartialEq, const UPPER: bool, const PREFIXED: bool> vstd::std_specs::cmp::PartialEqSpecImpl for Hex<T, UPPER, PREFIXED> {
    open spec fn obeys_eq_spec() -> bool {
        T::obeys_eq_spec()
    }

    open spec fn eq_spec(&self, other: &Self) -> bool {
        self@.eq_spec(&other@)
    }
}

impl<T: PartialOrd, const UPPER: bool, const PREFIXED: bool> PartialOrd for Hex<T, UPPER, PREFIXED> {
    /// The order of the wrapped integers.
    fn partial_cmp(&self, other: &Self) -> (order: Option<Ordering>) {
        self.internal.partial_cmp(&other.internal)
    }
}

impl<T: PartialOrd, const UPPER: bool, const PREFIXED: bool> vstd::std_specs::cmp::PartialOrdSpecImpl for Hex<T, UPPER, PREFIXED> {
    open spec fn obeys_partial_cmp_spec() -> bool {
        T::obeys_partial_cmp_spec()
    }

    open spec fn partial_cmp_spec(&self, other: &Self) -> Option<Ordering> {
        self@.partial_cmp_spec(&other@)
    }
}

impl<T: Width, const UPPER: bool, const PREFIXED: bool> Hex<T, UPPER, PREFIXED> {
    /// The policy that the type is tagged with.
    pub open spec fn spec_format() -> Format {
        Format {
            case: if UPPER {
                Case::Upper
            } else {
                Case::Lower
            },
            prefix: if PREFIXED {
                Prefix::Required
            } else {
                Prefix::Absent
            },
        }
    }

    /// The wire text of `self`.
    pub open spec fn serialized(self) -> Seq<char> {
        encoded(self@.number() as nat, Self::spec_format())
    }

    /// What reading the wire text `text` gives: the value that wraps the
    /// decoded number, or the reason why the codec rejects `text`.
    pub open spec fn deserialized(text: Seq<char>) -> Result<Self, DecodeError> {
        match decoded(text, Self::spec_format(), T::largest()) {
            Ok(number) => Ok(Self::wrap(T::of_number(number))),
            Err(error) => Err(error),
        }
    }

    /// The policy that the type is tagged with.
    #[verifier::when_used_as_spec(spec_format)]
    pub fn format() -> (format: Format)
        ensures
            format == Self::spec_format(),
    {
        Format {
            case: if UPPER {
                Case::Upper
            } else {
                Case::Lower
            },
            prefix: if PREFIXED {
                Prefix::Required
            } else {
                Prefix::Absent
            },
        }
    }

    /// The wrapped integer as plain decimal text, for people to read.
    pub fn display(&self) -> (text: String)
        ensures
            text@ == decimal_of(self@.number() as nat),
    {
        let mut text = String::new();
        push_decimal(&mut text, self.internal.widen());
        text
    }

    /// The wire text of `self`: its hex numeral under the type's policy.
    pub fn serialize(&self) -> (text: String)
        ensures
            text@ == self.serialized(),
    {
        encode(self.internal.widen(), Self::format())
    }

    /// Reads wire text under the type's policy.
    pub fn deserialize(text: &str) -> (result: Result<Self, DecodeError>)
        ensures
            result == Self::deserialized(text@),
    {
        match decode(text, Self::format(), T::limit()) {
            Ok(number) => Ok(Hex { internal: T::narrow(number) }),
            Err(error) => Err(error),
        }
    }

    /// Deserializing what a value serializes to gives the value back.
    pub proof fn lemma_serialize_round_trip(self)
        ensures
            Self::deserialized(self.serialized()) == Ok::<Self, DecodeError>(self),
    {
        let number = self@.number();
        self@.lemma_number_in_range();
        lemma_round_trip(number, Self::spec_format(), T::largest());
        T::lemma_of_number(number);
        T::lemma_number_is_injective(T::of_number(number), self@);
    }
}

/// A `u8` written as lower-case digits, no prefix.
pub type HexU8Lower = Hex<u8, false, false>;

/// A `u8` written as upper-case digits, no prefix.
pub type HexU8Upper = Hex<u8, true, false>;

/// A `u8` written as `0x` and lower-case digits.
pub type HexU8PrefixLower = Hex<u8, false, true>;

/// A `u8` written as `0x` and upper-case digits.
pub type HexU8PrefixUpper = Hex<u8, true, true>;

/// A `u16` written as lower-case digits, no prefix.
pub type HexU16Lower = Hex<u16, false, false>;

/// A `u16` written as upper-case digits, no prefix.
pub type HexU16Upper = Hex<u16, true, false>;

/// A `u16` written as `0x` and lower-case digits.
pub type HexU16PrefixLower = Hex<u16, false, true>;

/// A `u16` written as `0x` and upper-case digits.
pub type HexU16PrefixUpper = Hex<u16, true, true>;

/// A `u32` written as lower-case digits, no prefix.
pub type HexU32Lower = Hex<u32, false, false>;

/// A `u32` written as upper-case digits, no prefix.
pub type HexU32Upper = Hex<u32, true, false>;

/// A `u32` written as `0x` and lower-case digits.
pub type HexU32PrefixLower = Hex<u32, false, true>;

/// A `u32` written as `0x` and upper-case digits.
pub type HexU32PrefixUpper = Hex<u32, true, true>;

/// A `u64` written as lower-case digits, no prefix.
pub type HexU64Lower = Hex<u64, false, false>;

/// A `u64` written as upper-case digits, no prefix.
pub type HexU64Upper = Hex<u64, true, false>;

/// A `u64` written as `0x` and lower-case digits.
pub type HexU64PrefixLower = Hex<u64, false, true>;

/// A `u64` written as `0x` and upper-case digits.
pub type HexU64PrefixUpper = Hex<u64, true, true>;

/// A `usize` written as lower-case digits, no prefix.
pub type HexUsizeLower = Hex<usize, false, false>;

/// A `usize` written as upper-case digits, no prefix.
pub type HexUsizeUpper = Hex<usize, true, false>;

/// A `usize` written as `0x` and lower-case digits.
pub type HexUsizePrefixLower = Hex<usize, false, true>;

/// A `usize` written as `0x` and upper-case digits.
pub type HexUsizePrefixUpper = Hex<usize, true, true>;

} // verus!
