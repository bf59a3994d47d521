//! Fixed-width integers that travel as hexadecimal text under one of four
//! strict formatting policies: lower or upper case digits, with or without
//! the `0x` prefix. Text that does not follow the policy is rejected.

pub mod codec;
pub mod digits;
pub mod error;
pub mod format;
pub mod laws;
pub mod value;
pub mod width;

pub use crate::codec::{decode, encode};
pub use crate::error::DecodeError;
pub use crate::format::{Case, Format, Prefix};
pub use crate::value::{
    Hex, HexU16Lower, HexU16PrefixLower, HexU16PrefixUpper, HexU16Upper, HexU32Lower,
    HexU32PrefixLower, HexU32PrefixUpper, HexU32Upper, HexU64Lower, HexU64PrefixLower,
    HexU64PrefixUpper, HexU64Upper, HexU8Lower, HexU8PrefixLower, HexU8PrefixUpper, HexU8Upper,
    HexUsizeLower, HexUsizePrefixLower, HexUsizePrefixUpper, HexUsizeUpper,
};
pub use crate::width::Width;
