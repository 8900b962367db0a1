//! `FastBytes` option for raw `LZMA` encoding.
//!
//! The number of fast bytes bounds the match length the encoder searches for eagerly.
//! Valid values are 5 to 273; the default is 32.

use vstd::prelude::*;

use crate::error::{invalid_option, is_invalid_option, Error};

verus! {

/// Smallest accepted fast bytes.
pub const MIN_FAST_BYTES: u32 = 5;
/// Largest accepted fast bytes.
pub const MAX_FAST_BYTES: u32 = 273;
/// Default fast bytes.
pub const DEFAULT_FAST_BYTES: u32 = 32;

/// Number of fast bytes used by the encoder.
#[derive(Debug, Clone, Copy, PartialEq, Eq, PartialOrd, Ord)]
pub struct FastBytes(u32);

impl FastBytes {
    /// Minimum [`FastBytes`] value supported by the encoder.
    #[allow(non_snake_case)]
    pub fn MIN() -> (r: Self)
        ensures
            r.value() == MIN_FAST_BYTES,
    {
        FastBytes(MIN_FAST_BYTES)
    }

    /// Maximum [`FastBytes`] value supported by the encoder.
    #[allow(non_snake_case)]
    pub fn MAX() -> (r: Self)
        ensures
            r.value() == MAX_FAST_BYTES,
    {
        FastBytes(MAX_FAST_BYTES)
    }

    /// Default [`FastBytes`] value used by the encoder.
    #[allow(non_snake_case)]
    pub fn DEFAULT() -> (r: Self)
        ensures
            r.value() == DEFAULT_FAST_BYTES,
    {
        FastBytes(DEFAULT_FAST_BYTES)
    }

    #[verifier::type_invariant]
    spec fn in_range(self) -> bool {
        MIN_FAST_BYTES <= self.0 <= MAX_FAST_BYTES
    }

    /// The raw fast bytes value.
    pub closed spec fn value(self) -> u32 {
        self.0
    }

    /// Two values with the same raw number are the same value.
    pub proof fn lemma_value_injective(a: Self, b: Self)
        requires
            a.value() == b.value(),
        ensures
            a == b,
    {
    }

    /// Creates [`FastBytes`] from a raw `u32`; values outside 5..=273 are rejected.
    pub fn new(value: u32) -> (r: Result<Self, Error>)
        ensures
            r is Ok <==> MIN_FAST_BYTES <= value <= MAX_FAST_BYTES,
            r matches Ok(v) ==> v.value() == value,
            r matches Err(e) ==> is_invalid_option(e, "fast_bytes"@, "expected a value in 5..=273"@),
    {
        if MIN_FAST_BYTES <= value && value <= MAX_FAST_BYTES {
            Ok(FastBytes(value))
        } else {
            Err(invalid_option(String::from_str("fast_bytes"), String::from_str("expected a value in 5..=273")))
        }
    }

    /// Returns the raw numeric value expected by the SDK.
    pub fn get(self) -> (r: u32)
        ensures
            r == self.value(),
            MIN_FAST_BYTES <= r <= MAX_FAST_BYTES,
    {
        proof {
            use_type_invariant(&self);
        }
        self.0
    }
}

} // verus!
