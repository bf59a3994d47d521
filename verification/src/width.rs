//! The integer widths that a hex value can have.

use vstd::prelude::*;

verus! {

/// A fixed-width unsigned integer type, seen as the numbers from zero to
/// its largest value.
pub trait Width: Copy {
    /// The largest value of the width.
    spec fn largest() -> u64;

    /// The number that `self` holds.
    spec fn number(self) -> u64;

    /// The value of the width that holds `number`, for a `number` up to the
    /// largest value.
    spec fn of_number(number: u64) -> Self;

    /// The largest value of the width.
    fn limit() -> (largest: u64)
        ensures
            largest == Self::largest(),
    ;

    /// The number that `self` holds, never above the largest value.
    fn widen(self) -> (number: u64)
        ensures
            number == self.number(),
            number <= Self::largest(),
    ;

    /// The value of this width that holds `number`.
    fn narrow(number: u64) -> (value: Self)
        requires
            number <= Self::largest(),
        ensures
            value == Self::of_number(number),
    ;

    /// No value of the width holds more than the largest value.
    proof fn lemma_number_in_range(self)
        ensures
            self.number() <= Self::largest(),
    ;

    /// Every number up to the largest value is held by a value of the width.
    proof fn lemma_of_number(number: u64)
        requires
            number <= Self::largest(),
        ensures
            Self::of_number(number).number() == number,
    ;

    /// Two values of the width that hold the same number are the same value.
    proof fn lemma_number_is_injective(a: Self, b: Self)
        requires
            a.number() == b.number(),
        ensures
            a == b,
    ;
}

impl Width for u8 {
    open spec fn largest() -> u64 {
        u8::MAX as u64
    }

    open spec fn number(self) -> u64 {
        self as u64
    }

    open spec fn of_number(number: u64) -> Self {
        number as u8
    }

    fn limit() -> (largest: u64) {
        u8::MAX as u64
    }

    fn widen(self) -> (number: u64) {
        self as u64
    }

    fn narrow(number: u64) -> (value: Self) {
        number as u8
    }

    proof fn lemma_number_in_range(self) {
    }

    proof fn lemma_of_number(number: u64) {
    }

    proof fn lemma_number_is_injective(a: Self, b: Self) {
    }
}

impl Width for u16 {
    open spec fn largest() -> u64 {
        u16::MAX as u64
    }

    open spec fn number(self) -> u64 {
        self as u64
    }

    open spec fn of_number(number: u64) -> Self {
        number as u16
    }

    fn limit() -> (largest: u64) {
        u16::MAX as u64
    }

    fn widen(self) -> (number: u64) {
        self as u64
    }

    fn narrow(number: u64) -> (value: Self) {
        number as u16
    }

    proof fn lemma_number_in_range(self) {
    }

    proof fn lemma_of_number(number: u64) {
    }

    proof fn lemma_number_is_injective(a: Self, b: Self) {
    }
}

impl Width for u32 {
    open spec fn largest() -> u64 {
        u32::MAX as u64
    }

    open spec fn number(self) -> u64 {
        self as u64
    }

    open spec fn of_number(number: u64) -> Self {
        number as u32
    }

    fn limit() -> (largest: u64) {
        u32::MAX as u64
    }

    fn widen(self) -> (number: u64) {
        self as u64
    }

    fn narrow(number: u64) -> (value: Self) {
        number as u32
    }

    proof fn lemma_number_in_range(self) {
    }

    proof fn lemma_of_number(number: u64) {
    }

    proof fn lemma_number_is_injective(a: Self, b: Self) {
    }
}

impl Width for u64 {
    open spec fn largest() -> u64 {
        u64::MAX
    }

    open spec fn number(self) -> u64 {
        self
    }

    open spec fn of_number(number: u64) -> Self {
        number
    }

    fn limit() -> (largest: u64) {
        u64::MAX
    }

    fn widen(self) -> (number: u64) {
        self
    }

    fn narrow(number: u64) -> (value: Self) {
        number
    }

    proof fn lemma_number_in_range(self) {
    }

    proof fn lemma_of_number(number: u64) {
    }

    proof fn lemma_number_is_injective(a: Self, b: Self) {
    }
}

impl Width for usize {
    open spec fn largest() -> u64 {
        usize::MAX as u64
    }

    open spec fn number(self) -> u64 {
        self as u64
    }

    open spec fn of_number(number: u64) -> Self {
        number as usize
    }

    fn limit() -> (largest: u64) {
        usize::MAX as u64
    }

    fn widen(self) -> (number: u64) {
        self as u64
    }

    fn narrow(number: u64) -> (value: Self) {
        number as usize
    }

    proof fn lemma_number_in_range(self) {
    }

    proof fn lemma_of_number(number: u64) {
    }

    proof fn lemma_number_is_injective(a: Self, b: Self) {
    }
}

} // verus!
