//! The formatting policy of a hex codec: digit case and `0x` prefix.

use vstd::prelude::*;

verus! {

/// Which letters stand for the digits ten to fifteen in encoded text.
#[derive(Debug, Clone, Copy, PartialEq, Eq, Structural)]
pub enum Case {
    /// `a` to `f`.
    Lower,
    /// `A` to `F`.
    Upper,
}

/// Whether encoded text carries the `0x` prefix.
#[derive(Debug, Clone, Copy, PartialEq, Eq, Structural)]
pub enum Prefix {
    /// Bare digits; text that starts with `0x` is rejected.
    Absent,
    /// `0x` before the digits; text without it is rejected.
    Required,
}

/// A formatting policy: the pair of digit case and prefix rule.
#[derive(Debug, Clone, Copy, PartialEq, Eq, Structural)]
pub struct Format {
    pub case: Case,
    pub prefix: Prefix,
}

} // verus!
