//! `LiteralPosBits` option for raw `LZMA` encoding.
//!
//! The `lp` parameter is the number of low bits of the position used as context for
//! literal coding. Valid values are 0 to 4; the default is 0.

use vstd::prelude::*;

use crate::error::{invalid_option, is_invalid_option, Error};

verus! {

/// Smallest accepted `lp`.
pub const MIN_LITERAL_POSITION_BITS: u32 = 0;
/// Largest accepted `lp`.
pub const MAX_LITERAL_POSITION_BITS: u32 = 4;
/// Default `lp`.
pub const DEFAULT_LITERAL_POSITION_BITS: u32 = 0;

/// Number of literal position bits (`lp`) for raw `LZMA`.
#[derive(Debug, Clone, Copy, PartialEq, Eq, PartialOrd, Ord)]
pub struct LiteralPosBits(u32);

impl LiteralPosBits {
    /// Minimum [`LiteralPosBits`] value supported by the encoder.
    #[allow(non_snake_case)]
    pub fn MIN() -> (r: Self)
        ensures
            r.value() == MIN_LITERAL_POSITION_BITS,
    {
        LiteralPosBits(MIN_LITERAL_POSITION_BITS)
    }

    /// Maximum [`LiteralPosBits`] value supported by the encoder.
    #[allow(non_snake_case)]
    pub fn MAX() -> (r: Self)
        ensures
            r.value() == MAX_LITERAL_POSITION_BITS,
    {
        LiteralPosBits(MAX_LITERAL_POSITION_BITS)
    }

    /// Default [`LiteralPosBits`] value used by the encoder.
    #[allow(non_snake_case)]
    pub fn DEFAULT() -> (r: Self)
        ensures
            r.value() == DEFAULT_LITERAL_POSITION_BITS,
    {
        LiteralPosBits(DEFAULT_LITERAL_POSITION_BITS)
    }

    #[verifier::type_invariant]
    spec fn in_range(self) -> bool {
        self.0 <= MAX_LITERAL_POSITION_BITS
    }

    /// The raw `lp` value.
    pub closed spec fn value(self) -> u32 {
        self.0
    }

    /// Two values with the same raw number are the same value.
    pub proof fn lemma_value_injective(a: Self, b: Self)
        requires
            a.value() == b.value(),
        ensures
            a == b,
    {
    }

    /// Creates [`LiteralPosBits`] from a raw `u32`; values outside 0..=4 are rejected.
    pub fn new(value: u32) -> (r: Result<Self, Error>)
        ensures
            r is Ok <==> value <= MAX_LITERAL_POSITION_BITS,
            r matches Ok(v) ==> v.value() == value,
            r matches Err(e) ==> is_invalid_option(e, "lp"@, "expected a value in 0..=4"@),
    {
        if MIN_LITERAL_POSITION_BITS <= value && value <= MAX_LITERAL_POSITION_BITS {
            Ok(LiteralPosBits(value))
        } else {
            Err(invalid_option(String::from_str("lp"), String::from_str("expected a value in 0..=4")))
        }
    }

    /// Returns the raw numeric value expected by the SDK.
    pub fn get(self) -> (r: u32)
        ensures
            r == self.value(),
            r <= MAX_LITERAL_POSITION_BITS,
    {
        proof {
            use_type_invariant(&self);
        }
        self.0
    }
}

} // verus!
