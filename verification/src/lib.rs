//! Verified core of safe wrappers around the `LZMA SDK` codecs.
//!
//! The library holds the option models, the property and container headers, checksums and
//! filters, and the state machines of the buffered encoders and incremental decoders. The
//! compression and decompression kernels are the SDK's: the state machines take what a
//! kernel produced as an argument and decide everything around it.
//!
//! The behaviour modelled is that of SDK release 26.00: every option, filter and check it
//! offers is accepted, and its default property records are the ones the contracts name.
//! Releases 9.20, 16.04, 19.00 and 23.01, with the features they lack and the older archive
//! database layout, are not modelled.

use vstd::prelude::*;

pub mod alone;
pub mod archive;
pub mod checksum;
pub mod error;
pub mod filter;
pub mod lzma2;
pub mod lzma;
pub mod stream;
pub mod xz;

pub use alone::{Decoder as AloneDecoder, Encoder as AloneEncoder, LZMA_ALONE_HEADER_SIZE};
pub use checksum::crc32;
pub use error::Error;
pub use filter::{BranchConverter, BranchFilter, BranchMode, DeltaFilter};
pub use lzma::{
    FinishMode, LzmaAction, LzmaOptions, LzmaOptionsBuilder, LzmaProps, RawDecoder, RawEncoder,
    LZMA_PROPS_SIZE,
};
pub use lzma2::{Lzma2Decoder, Lzma2Encoder, Lzma2Options, Lzma2OptionsBuilder, Lzma2Property};
pub use stream::Stream;
pub use xz::{Decoder, Encoder, XzCompressedData, XzOptions, XzOptionsBuilder};

verus! {

/// Version of the upstream SDK snapshot whose behaviour this library models.
pub open spec fn spec_sdk_version() -> Seq<char> {
    "26.00"@
}

/// Returns the version string of the upstream SDK snapshot the library models.
pub fn sdk_version() -> (r: &'static str)
    ensures
        r@ == spec_sdk_version(),
{
    "26.00"
}

/// Copies the next pending bytes, from `*offset` on, into the front of `output`; returns how
/// many were copied and advances `*offset` by that count. The rest of `output` is untouched.
pub fn drain_pending(pending: &[u8], offset: &mut usize, output: &mut [u8]) -> (written: usize)
    ensures
        written == vstd::math::min(
            vstd::math::max(pending@.len() - *old(offset), 0),
            old(output)@.len() as int,
        ),
        *final(offset) == *old(offset) + written,
        written == 0 ==> final(output)@ == old(output)@,
        written > 0 ==> final(output)@ == pending@.subrange(
            *old(offset) as int,
            *old(offset) + written,
        ) + old(output)@.skip(written as int),
{
    let available = pending.len().saturating_sub(*offset);
    let to_write = if available < output.len() {
        available
    } else {
        output.len()
    };
    if to_write != 0 {
        let start = *offset;
        let mut k: usize = 0;
        while k < to_write
            invariant
                k <= to_write,
                to_write <= output@.len(),
                start + to_write <= pending.len(),
                output@.len() == old(output)@.len(),
                output@ == pending@.subrange(start as int, start + k) + old(output)@.skip(k as int),
            decreases to_write - k,
        {
            output[k] = pending[start + k];
            k = k + 1;
            assert(output@ =~= pending@.subrange(start as int, start + k) + old(output)@.skip(
                k as int,
            ));
        }
        *offset = start + to_write;
    }
    to_write
}

/// Appends `data` to the end of `v`.
pub fn append_bytes(v: &mut Vec<u8>, data: &[u8])
    ensures
        final(v)@ == old(v)@ + data@,
{
    let ghost start = v@;
    let mut k: usize = 0;
    while k < data.len()
        invariant
            k <= data@.len(),
            v@ == start + data@.take(k as int),
        decreases data@.len() - k,
    {
        v.push(data[k]);
        k = k + 1;
        assert(v@ =~= start + data@.take(k as int));
    }
    assert(data@.take(data@.len() as int) =~= data@);
}

/// Suggests an initial output buffer size for an input of `input_len` bytes: the input size
/// plus a third plus 1024 bytes of slack (saturating), and never less than 1024.
pub fn initial_output_capacity(input_len: usize) -> (r: usize)
    ensures
        r == vstd::math::max(
            vstd::math::min(input_len + input_len / 3 + 1024, usize::MAX as int),
            1024,
        ),
{
    let grown = input_len.saturating_add(input_len / 3).saturating_add(1024);
    if grown < 1024 {
        1024
    } else {
        grown
    }
}

/// Doubles a buffer capacity, failing with [`Error::SizeOverflow`] when that overflows.
pub fn grow_capacity(capacity: usize) -> (r: Result<usize, Error>)
    ensures
        r is Ok <==> 2 * capacity <= usize::MAX,
        r matches Ok(c) ==> c == 2 * capacity,
        r matches Err(e) ==> e == Error::SizeOverflow,
{
    match capacity.checked_mul(2) {
        Some(c) => Ok(c),
        None => Err(Error::SizeOverflow),
    }
}

} // verus!
