//! `LiteralContextBits` option for raw `LZMA` encoding.
//!
//! The `lc` parameter is the number of high bits of the previous byte used as context for
//! literal coding. Valid values are 0 to 8; the default is 3.

use vstd::prelude::*;

use crate::error::{invalid_option, is_invalid_option, Error};

verus! {

/// Smallest accepted `lc`.
pub const MIN_LITERAL_CONTEXT_BITS: u32 = 0;
/// Largest accepted `lc`.
pub const MAX_LITERAL_CONTEXT_BITS: u32 = 8;
/// Default `lc`.
pub const DEFAULT_LITERAL_CONTEXT_BITS: u32 = 3;

/// Number of literal context bits (`lc`) for raw `LZMA`.
#[derive(Debug, Clone, Copy, PartialEq, Eq, PartialOrd, Ord)]
pub struct LiteralContextBits(u32);

impl LiteralContextBits {
    /// Minimum [`LiteralContextBits`] value supported by the encoder.
    #[allow(non_snake_case)]
    pub fn MIN() -> (r: Self)
        ensures
            r.value() == MIN_LITERAL_CONTEXT_BITS,
    {
        LiteralContextBits(MIN_LITERAL_CONTEXT_BITS)
    }

    /// Maximum [`LiteralContextBits`] value supported by the encoder.
    #[allow(non_snake_case)]
    pub fn MAX() -> (r: Self)
        ensures
            r.value() == MAX_LITERAL_CONTEXT_BITS,
    {
        LiteralContextBits(MAX_LITERAL_CONTEXT_BITS)
    }

    /// Default [`LiteralContextBits`] value used by the encoder.
    #[allow(non_snake_case)]
    pub fn DEFAULT() -> (r: Self)
        ensures
            r.value() == DEFAULT_LITERAL_CONTEXT_BITS,
    {
        LiteralContextBits(DEFAULT_LITERAL_CONTEXT_BITS)
    }

    #[verifier::type_invariant]
    spec fn in_range(self) -> bool {
        self.0 <= MAX_LITERAL_CONTEXT_BITS
    }

    /// The raw `lc` value.
    pub closed spec fn value(self) -> u32 {
        self.0
    }

    /// Two values with the same raw number are the same value.
    pub proof fn lemma_value_injective(a: Self, b: Self)
        requires
            a.value() == b.value(),
        ensures
            a == b,
    {
    }

    /// Creates [`LiteralContextBits`] from a raw `u32`; values above 8 are rejected.
    pub fn new(value: u32) -> (r: Result<Self, Error>)
        ensures
            r is Ok <==> value <= MAX_LITERAL_CONTEXT_BITS,
            r matches Ok(v) ==> v.value() == value,
            r matches Err(e) ==> is_invalid_option(e, "lc"@, "expected a value in 0..=8"@),
    {
        if MIN_LITERAL_CONTEXT_BITS <= value && value <= MAX_LITERAL_CONTEXT_BITS {
            Ok(LiteralContextBits(value))
        } else {
            Err(invalid_option(String::from_str("lc"), String::from_str("expected a value in 0..=8")))
        }
    }

    /// Returns the raw numeric value expected by the SDK.
    pub fn get(self) -> (r: u32)
        ensures
            r == self.value(),
            r <= MAX_LITERAL_CONTEXT_BITS,
    {
        proof {
            use_type_invariant(&self);
        }
        self.0
    }
}

} // verus!
