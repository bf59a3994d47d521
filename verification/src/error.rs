//! Why a piece of text was not accepted as a hex value.

use vstd::prelude::*;

verus! {

/// The reason decoding failed. Encoding never fails.
#[derive(Debug, Clone, Copy, PartialEq, Eq, Structural)]
pub enum DecodeError {
    /// The policy requires the `0x` prefix and the text does not start with it.
    MissingPrefix,
    /// The policy forbids the `0x` prefix and the text starts with it.
    UnexpectedPrefix,
    /// A character of the digit portion is not one of `0-9`, `a-f`, `A-F`.
    InvalidDigit,
    /// Nothing is left once the prefix has been dealt with.
    Empty,
    /// The digits denote a number above the largest value of the width.
    Overflow,
}

impl DecodeError {
    /// The sentence that says what was wrong with the text.
    pub open spec fn sentence(self) -> Seq<char> {
        match self {
            DecodeError::MissingPrefix => "hex string without 0x prefix"@,
            DecodeError::UnexpectedPrefix => "hex string with unexpected 0x prefix"@,
            DecodeError::InvalidDigit => "invalid digit found in hex string"@,
            DecodeError::Empty => "cannot parse integer from empty hex string"@,
            DecodeError::Overflow => "number too large to fit in target type"@,
        }
    }

    /// A short sentence that says what was wrong with the text.
    pub fn message(self) -> (text: &'static str)
        ensures
            text@ == self.sentence(),
    {
        match self {
            DecodeError::MissingPrefix => "hex string without 0x prefix",
            DecodeError::UnexpectedPrefix => "hex string with unexpected 0x prefix",
            DecodeError::InvalidDigit => "invalid digit found in hex string",
            DecodeError::Empty => "cannot parse integer from empty hex string",
            DecodeError::Overflow => "number too large to fit in target type",
        }
    }
}

} // verus!
