//! `LZMA2` streams: options, the one-byte property, the buffered encoder and the incremental
//! decoder state.

use vstd::prelude::*;

pub mod decoder;
pub mod encoder;
pub mod options;

pub use decoder::Decoder as Lzma2Decoder;
pub use encoder::CompressedData as Lzma2CompressedData;
pub use encoder::Encoder as Lzma2Encoder;
pub use options::Options as Lzma2Options;
pub use options::OptionsBuilder as Lzma2OptionsBuilder;
pub use Property as Lzma2Property;

verus! {

/// Encoded one-byte `LZMA2` property value.
#[derive(Debug, Clone, Copy, PartialEq, Eq)]
pub struct Property(u8);

impl Property {
    /// The raw property byte.
    pub closed spec fn spec_raw(self) -> u8 {
        self.0
    }

    /// Creates a property wrapper from the raw SDK byte.
    pub fn new(raw: u8) -> (r: Self)
        ensures
            r.spec_raw() == raw,
    {
        Property(raw)
    }

    /// Returns the raw SDK property byte.
    pub fn raw(self) -> (r: u8)
        ensures
            r == self.spec_raw(),
    {
        self.0
    }
}

} // verus!
