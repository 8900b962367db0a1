//! `XZ` container streams: options, the buffered encoder and the incremental decoder state.

pub mod decoder;
pub mod encoder;
pub mod options;

pub use decoder::{DecodeStatus, Decoder};
pub use encoder::CompressedData as XzCompressedData;
pub use encoder::Encoder;
pub use options::Options as XzOptions;
pub use options::OptionsBuilder as XzOptionsBuilder;
pub use options::{Check, Filter};
