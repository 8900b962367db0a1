//! `CompressionLevel` option for raw `LZMA` encoding.
//!
//! Level 0 is the fastest and level 9 compresses best; the default is 5.

use vstd::prelude::*;

use crate::error::{invalid_option, is_invalid_option, Error};

verus! {

/// Smallest accepted compression level.
pub const MIN_COMPRESSION_LEVEL: u32 = 0;
/// Largest accepted compression level.
pub const MAX_COMPRESSION_LEVEL: u32 = 9;
/// Default compression level.
pub const DEFAULT_COMPRESSION_LEVEL: u32 = 5;

/// Compression level used by raw `LZMA` encoders.
#[derive(Debug, Clone, Copy, PartialEq, Eq, PartialOrd, Ord)]
pub struct CompressionLevel(u32);

impl CompressionLevel {
    /// Minimum [`CompressionLevel`] value supported by the encoder.
    #[allow(non_snake_case)]
    pub fn MIN() -> (r: Self)
        ensures
            r.value() == MIN_COMPRESSION_LEVEL,
    {
        CompressionLevel(MIN_COMPRESSION_LEVEL)
    }

    /// Maximum [`CompressionLevel`] value supported by the encoder.
    #[allow(non_snake_case)]
    pub fn MAX() -> (r: Self)
        ensures
            r.value() == MAX_COMPRESSION_LEVEL,
    {
        CompressionLevel(MAX_COMPRESSION_LEVEL)
    }

    /// Default [`CompressionLevel`] value used by the encoder.
    #[allow(non_snake_case)]
    pub fn DEFAULT() -> (r: Self)
        ensures
            r.value() == DEFAULT_COMPRESSION_LEVEL,
    {
        CompressionLevel(DEFAULT_COMPRESSION_LEVEL)
    }

    #[verifier::type_invariant]
    spec fn in_range(self) -> bool {
        self.0 <= MAX_COMPRESSION_LEVEL
    }

    /// The raw compression level value.
    pub closed spec fn value(self) -> u32 {
        self.0
    }

    /// Two values with the same raw number are the same value.
    pub proof fn lemma_value_injective(a: Self, b: Self)
        requires
            a.value() == b.value(),
        ensures
            a == b,
    {
    }

    /// Creates [`CompressionLevel`] from a raw `u32`; values outside 0..=9 are rejected.
    pub fn new(value: u32) -> (r: Result<Self, Error>)
        ensures
            r is Ok <==> value <= MAX_COMPRESSION_LEVEL,
            r matches Ok(v) ==> v.value() == value,
            r matches Err(e) ==> is_invalid_option(e, "level"@, "expected a value in 0..=9"@),
    {
        if MIN_COMPRESSION_LEVEL <= value && value <= MAX_COMPRESSION_LEVEL {
            Ok(CompressionLevel(value))
        } else {
            Err(invalid_option(String::from_str("level"), String::from_str("expected a value in 0..=9")))
        }
    }

    /// Returns the raw numeric value expected by the SDK.
    pub fn get(self) -> (r: u32)
        ensures
            r == self.value(),
            r <= MAX_COMPRESSION_LEVEL,
    {
        proof {
            use_type_invariant(&self);
        }
        self.0
    }
}

} // verus!
