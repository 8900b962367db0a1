//! `PosBits` option for raw `LZMA` encoding.
//!
//! The `pb` parameter is the number of low position bits used when modelling matches.
//! Valid values are 0 to 4; the default is 2.

use vstd::prelude::*;

use crate::error::{invalid_option, is_invalid_option, Error};

verus! {

/// Smallest accepted `pb`.
pub const MIN_POSITION_BITS: u32 = 0;
/// Largest accepted `pb`.
pub const MAX_POSITION_BITS: u32 = 4;
/// Default `pb`.
pub const DEFAULT_POSITION_BITS: u32 = 2;

/// Number of position bits (`pb`) for raw `LZMA`.
#[derive(Debug, Clone, Copy, PartialEq, Eq, PartialOrd, Ord)]
pub struct PosBits(u32);

impl PosBits {
    /// Minimum [`PosBits`] value supported by the encoder.
    #[allow(non_snake_case)]
    pub fn MIN() -> (r: Self)
        ensures
            r.value() == MIN_POSITION_BITS,
    {
        PosBits(MIN_POSITION_BITS)
    }

    /// Maximum [`PosBits`] value supported by the encoder.
    #[allow(non_snake_case)]
    pub fn MAX() -> (r: Self)
        ensures
            r.value() == MAX_POSITION_BITS,
    {
        PosBits(MAX_POSITION_BITS)
    }

    /// Default [`PosBits`] value used by the encoder.
    #[allow(non_snake_case)]
    pub fn DEFAULT() -> (r: Self)
        ensures
            r.value() == DEFAULT_POSITION_BITS,
    {
        PosBits(DEFAULT_POSITION_BITS)
    }

    #[verifier::type_invariant]
    spec fn in_range(self) -> bool {
        self.0 <= MAX_POSITION_BITS
    }

    /// The raw `pb` value.
    pub closed spec fn value(self) -> u32 {
        self.0
    }

    /// Two values with the same raw number are the same value.
    pub proof fn lemma_value_injective(a: Self, b: Self)
        requires
            a.value() == b.value(),
        ensures
            a == b,
    {
    }

    /// Creates [`PosBits`] from a raw `u32`; values outside 0..=4 are rejected.
    pub fn new(value: u32) -> (r: Result<Self, Error>)
        ensures
            r is Ok <==> value <= MAX_POSITION_BITS,
            r matches Ok(v) ==> v.value() == value,
            r matches Err(e) ==> is_invalid_option(e, "pb"@, "expected a value in 0..=4"@),
    {
        if value <= MAX_POSITION_BITS {
            Ok(PosBits(value))
        } else {
            Err(invalid_option(String::from_str("pb"), String::from_str("expected a value in 0..=4")))
        }
    }

    /// Returns the raw numeric value expected by the SDK.
    pub fn get(self) -> (r: u32)
        ensures
            r == self.value(),
            r <= MAX_POSITION_BITS,
    {
        proof {
            use_type_invariant(&self);
        }
        self.0
    }
}

} // verus!
