//! Factory object for the owned encoder and decoder surface.
//!
//! Callers start from a `Stream` value and turn it into a format-specific encoder or decoder.

use vstd::prelude::*;

use crate::alone::{Decoder as AloneDecoder, Encoder as AloneEncoder};
use crate::error::Error;
use crate::lzma::options::OptionsModel as LzmaOptionsModel;
use crate::lzma::options::EndMarkerMode;
use crate::lzma::{LzmaOptions, LzmaProps, RawDecoder, RawEncoder};
use crate::lzma2::{Lzma2Decoder, Lzma2Encoder, Lzma2Options, Lzma2Property};
use crate::xz::{Decoder, Encoder, XzOptions};

pub mod ffi;

verus! {

/// Owned entrypoint used to construct encoders and decoders.
#[derive(Debug, Clone, Copy, Default, PartialEq, Eq)]
pub struct Stream;

impl Stream {
    /// Creates a new stream factory.
    pub fn new() -> (r: Self)
        ensures
            r == Stream,
    {
        Stream
    }

    /// Creates a new raw `LZMA` encoder.
    pub fn raw_encoder(self, options: LzmaOptions) -> (r: RawEncoder)
        ensures
            r.wf(),
            r.spec_options() == options,
            r.spec_buffered() == Seq::<u8>::empty(),
            r.spec_encoded() is None,
            r.spec_offset() == 0,
    {
        RawEncoder::new(options)
    }

    /// Creates a new `LZMA2` encoder.
    pub fn lzma2_encoder(self, options: Lzma2Options) -> (r: Lzma2Encoder)
        ensures
            r.wf(),
            r.spec_options() == options,
            r.spec_buffered() == Seq::<u8>::empty(),
            r.spec_encoded() is None,
            r.spec_offset() == 0,
    {
        Lzma2Encoder::new(options)
    }

    /// Creates a new `XZ` encoder.
    pub fn encoder(self, options: XzOptions) -> (r: Encoder)
        ensures
            r.wf(),
            r.spec_options() == options,
            r.spec_buffered() == Seq::<u8>::empty(),
            r.spec_encoded() is None,
            r.spec_offset() == 0,
    {
        Encoder::new(options)
    }

    /// Creates a new raw `LZMA` decoder from typed properties.
    pub fn raw_decoder(self, props: &LzmaProps) -> (r: Result<RawDecoder, Error>)
        ensures
            r matches Ok(d) && d.spec_props() == *props && !d.spec_finished() && d.spec_total_in()
                == 0 && d.spec_total_out() == 0,
    {
        RawDecoder::new(props)
    }

    /// Creates a new `LZMA2` decoder.
    pub fn lzma2_decoder(self, property: Lzma2Property) -> (r: Result<Lzma2Decoder, Error>)
        ensures
            r matches Ok(d) && d.spec_property() == property && !d.spec_finished()
                && d.spec_total_in() == 0 && d.spec_total_out() == 0,
    {
        Lzma2Decoder::new(property)
    }

    /// Creates a new `XZ` decoder.
    pub fn decoder(self) -> (r: Result<Decoder, Error>)
        ensures
            r matches Ok(d) && !d.spec_finished() && d.spec_total_in() == 0 && d.spec_total_out()
                == 0,
    {
        Decoder::new()
    }

    /// Creates a new `.lzma` encoder.
    pub fn alone_encoder(self, options: LzmaOptions) -> (r: AloneEncoder)
        ensures
            r.wf(),
            r.spec_inner().spec_options()@ == (LzmaOptionsModel {
                end_marker: EndMarkerMode::Enabled,
                ..options@
            }),
            r.spec_pending() is None,
            r.spec_total_in() == 0,
    {
        AloneEncoder::new(options)
    }

    /// Creates a new `.lzma` decoder.
    pub fn alone_decoder(self) -> (r: Result<AloneDecoder, Error>)
        ensures
            r matches Ok(d) && d.wf() && d.spec_inner() is None && !d.spec_finished()
                && d.spec_total_in() == 0 && d.spec_total_out() == 0,
    {
        AloneDecoder::new()
    }
}

} // verus!
