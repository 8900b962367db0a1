//! Buffered raw `LZMA` encoder state.
//!
//! Input is buffered until [`Action::Finish`]; at that point the SDK's one-shot encoder
//! compresses the whole buffer and later calls drain the result. The encoder itself is the
//! SDK's: `process` takes its result as an argument and does everything around it.

use vstd::prelude::*;

use crate::error::{map_status, status_error, Error, SZ_ERROR_OUTPUT_EOF, SZ_OK};
use crate::{append_bytes, drain_pending, grow_capacity};

use super::props::{Props, LZMA_PROPS_SIZE};
use super::{Action, LzmaOptions};

verus! {

/// Output of a raw `LZMA` encode operation.
#[derive(Debug, Clone, PartialEq, Eq)]
pub struct CompressedData {
    /// Five-byte raw `LZMA` properties header required for decompression.
    pub props: [u8; LZMA_PROPS_SIZE],
    /// Number of bytes in the original uncompressed payload.
    pub uncompressed_len: usize,
    /// Encoded raw `LZMA` payload bytes.
    pub compressed: Vec<u8>,
}

impl CompressedData {
    /// Decodes the typed property view from the stored five-byte props header; a packed
    /// byte of 225 or more is [`Error::Unsupported`].
    pub fn properties(&self) -> (r: Result<Props, Error>)
        ensures
            r is Ok <==> self.props@[0] < super::props::PACKED_PROPS_LIMIT,
            r matches Ok(p) ==> super::props::spec_decode(self.props@) == Some(p@),
            r matches Err(e) ==> e == Error::Unsupported,
    {
        Props::decode(&self.props)
    }
}

/// What the encoder should do after one attempt of the SDK's one-shot encoder.
#[derive(Debug, Clone, Copy, PartialEq, Eq)]
pub enum CompressAttempt {
    /// The attempt succeeded; its output is final.
    Done,
    /// The output buffer was too small; try again with this capacity.
    Retry(usize),
}

/// Decides how compression goes on after an attempt with an output buffer of `capacity`
/// bytes ended with SDK status `code`: success is final, a full output buffer is retried
/// with twice the capacity (failing with [`Error::SizeOverflow`] when that overflows), and
/// every other status is the error it maps to.
pub fn next_compress_step(code: i32, capacity: usize) -> (r: Result<CompressAttempt, Error>)
    ensures
        code == SZ_OK ==> r == Ok::<CompressAttempt, Error>(CompressAttempt::Done),
        code == SZ_ERROR_OUTPUT_EOF ==> (if 2 * capacity <= usize::MAX {
            r == Ok::<CompressAttempt, Error>(CompressAttempt::Retry((2 * capacity) as usize))
        } else {
            r == Err::<CompressAttempt, Error>(Error::SizeOverflow)
        }),
        code != SZ_OK && code != SZ_ERROR_OUTPUT_EOF ==> r == Err::<CompressAttempt, Error>(
            status_error(code),
        ),
{
    if code == SZ_OK {
        return Ok(CompressAttempt::Done);
    }
    if code == SZ_ERROR_OUTPUT_EOF {
        return match grow_capacity(capacity) {
            Ok(c) => Ok(CompressAttempt::Retry(c)),
            Err(e) => Err(e),
        };
    }
    Err(map_status(code))
}

/// Buffered raw `LZMA` encoder that emits output after [`Action::Finish`].
pub struct Encoder {
    options: LzmaOptions,
    buffered_input: Vec<u8>,
    encoded: Option<CompressedData>,
    output_offset: usize,
    total_in: u64,
    total_out: u64,
}

impl Encoder {
    /// The counters agree with the buffered input and the drained prefix, and the drained
    /// prefix lies within the encoded stream.
    pub closed spec fn wf(self) -> bool {
        &&& self.total_in == self.buffered_input@.len()
        &&& self.total_out == self.output_offset
        &&& match self.encoded {
            None => self.output_offset == 0,
            Some(d) => {
                &&& self.output_offset <= d.compressed@.len()
                &&& d.uncompressed_len == self.buffered_input@.len()
            },
        }
    }

    /// The options the encoder was created with.
    pub closed spec fn spec_options(self) -> LzmaOptions {
        self.options
    }

    /// All input accepted so far.
    pub closed spec fn spec_buffered(self) -> Seq<u8> {
        self.buffered_input@
    }

    /// The compressed stream once it exists.
    pub closed spec fn spec_encoded(self) -> Option<CompressedData> {
        self.encoded
    }

    /// How many compressed bytes have been handed out.
    pub closed spec fn spec_offset(self) -> nat {
        self.output_offset as nat
    }

    /// Creates a buffered raw `LZMA` encoder with nothing buffered yet.
    pub fn new(options: LzmaOptions) -> (r: Self)
        ensures
            r.wf(),
            r.spec_options() == options,
            r.spec_buffered() == Seq::<u8>::empty(),
            r.spec_encoded() is None,
            r.spec_offset() == 0,
    {
        Encoder {
            options,
            buffered_input: Vec::new(),
            encoded: None,
            output_offset: 0,
            total_in: 0,
            total_out: 0,
        }
    }

    /// The options the encoder compresses with.
    pub fn options(&self) -> (r: &LzmaOptions)
        ensures
            *r == self.spec_options(),
    {
        &self.options
    }

    /// All input accepted so far; the SDK encoder compresses exactly this.
    pub fn buffered_input(&self) -> (r: &[u8])
        ensures
            r@ == self.spec_buffered(),
    {
        self.buffered_input.as_slice()
    }

    /// Processes the next chunk of input and writes encoded bytes into `output`.
    ///
    /// Input after the stream was encoded is refused with [`Error::Param`]. Otherwise the
    /// input is buffered; on the first [`Action::Finish`] the stream is encoded, and
    /// `compressed` is the SDK encoder's result on the whole buffered input (it is given
    /// exactly on that call). Once encoded, each call drains the next encoded bytes into
    /// `output`. Returns the number of input bytes consumed and output bytes written.
    pub fn process(
        &mut self,
        input: &[u8],
        output: &mut [u8],
        action: Action,
        compressed: Option<Result<CompressedData, Error>>,
    ) -> (r: Result<(usize, usize), Error>)
        requires
            old(self).wf(),
            compressed is Some <==> (action == Action::Finish && old(self).spec_encoded() is None
                && input@.len() + old(self).spec_buffered().len() <= usize::MAX),
            input@.len() + old(self).spec_buffered().len() <= usize::MAX,
        ensures
            final(self).wf(),
            final(self).spec_options() == old(self).spec_options(),
            old(self).spec_encoded() is Some && input@.len() > 0 ==> r == Err::<(usize, usize), Error>(
                Error::Param,
            ) && *final(self) == *old(self) && final(output)@ == old(output)@,
            !(old(self).spec_encoded() is Some && input@.len() > 0) ==> {
                &&& final(self).spec_buffered() == old(self).spec_buffered() + input@
                &&& match compressed {
                    Some(Err(e)) => {
                        &&& r == Err::<(usize, usize), Error>(e)
                        &&& final(self).spec_encoded() is None
                        &&& final(output)@ == old(output)@
                    },
                    _ => {
                        let encoded = match compressed {
                            Some(Ok(d)) => Some(
                                CompressedData {
                                    props: d.props,
                                    uncompressed_len: final(self).spec_buffered().len() as usize,
                                    compressed: d.compressed,
                                },
                            ),
                            _ => old(self).spec_encoded(),
                        };
                        &&& final(self).spec_encoded() == encoded
                        &&& match encoded {
                            None => {
                                &&& r == Ok::<(usize, usize), Error>((input@.len() as usize, 0usize))
                                &&& final(self).spec_offset() == 0
                                &&& final(output)@ == old(output)@
                            },
                            Some(d) => {
                                let start = if compressed is Some {
                                    0
                                } else {
                                    old(self).spec_offset()
                                };
                                let w = vstd::math::min(
                                    d.compressed@.len() - start,
                                    old(output)@.len() as int,
                                );
                                &&& r == Ok::<(usize, usize), Error>((input@.len() as usize, w as usize))
                                &&& final(self).spec_offset() == start + w
                                &&& final(output)@ == d.compressed@.subrange(start as int, start + w)
                                    + old(output)@.skip(w)
                            },
                        }
                    },
                }
            },
    {
        if self.encoded.is_some() && input.len() != 0 {
            return Err(Error::Param);
        }
        append_bytes(&mut self.buffered_input, input);
        self.total_in = self.buffered_input.len() as u64;
        if let Some(result) = compressed {
            match result {
                Ok(d) => {
                    let uncompressed_len = self.buffered_input.len();
                    self.encoded = Some(
                        CompressedData { props: d.props, uncompressed_len, compressed: d.compressed },
                    );
                    self.output_offset = 0;
                    self.total_out = 0;
                },
                Err(e) => {
                    return Err(e);
                },
            }
        }
        let written = match &self.encoded {
            Some(encoded) => {
                let mut offset = self.output_offset;
                let written = drain_pending(encoded.compressed.as_slice(), &mut offset, output);
                self.output_offset = offset;
                self.total_out = offset as u64;
                written
            },
            None => 0,
        };
        Ok((input.len(), written))
    }

    /// Returns `true` once the encoded stream has been fully drained.
    pub fn is_finished(&self) -> (r: bool)
        ensures
            r == (self.spec_encoded() matches Some(d) && self.spec_offset() == d.compressed@.len()),
    {
        match &self.encoded {
            Some(encoded) => self.output_offset == encoded.compressed.len(),
            None => false,
        }
    }

    /// Returns the total number of source bytes accepted by the encoder.
    pub fn total_in(&self) -> (r: u64)
        requires
            self.wf(),
        ensures
            r == self.spec_buffered().len(),
    {
        self.total_in
    }

    /// Returns the total number of encoded bytes written through [`Self::process`].
    pub fn total_out(&self) -> (r: u64)
        requires
            self.wf(),
        ensures
            r == self.spec_offset(),
            self.spec_encoded() is None ==> r == 0,
            self.spec_encoded() matches Some(d) ==> r <= d.compressed@.len(),
    {
        self.total_out
    }

    /// What a consistent encoder guarantees its callers: nothing is drained before the
    /// stream is encoded; afterwards the drained prefix lies within the encoded stream,
    /// whose recorded uncompressed length is the length of all accepted input; the buffered
    /// input fits in memory, which bounds what one more call may add.
    pub proof fn lemma_drain_bounds(self)
        requires
            self.wf(),
        ensures
            self.spec_encoded() is None ==> self.spec_offset() == 0,
            self.spec_encoded() matches Some(d) ==> self.spec_offset() <= d.compressed@.len()
                && d.uncompressed_len == self.spec_buffered().len(),
            self.spec_buffered().len() <= usize::MAX,
    {
        assert(self.buffered_input@.len() == self.buffered_input.len());
    }

    /// Returns the five-byte raw-LZMA properties header after finishing the stream.
    pub fn properties(&self) -> (r: Option<[u8; LZMA_PROPS_SIZE]>)
        ensures
            r == (match self.spec_encoded() {
                Some(d) => Some(d.props),
                None => None::<[u8; LZMA_PROPS_SIZE]>,
            }),
    {
        match &self.encoded {
            Some(encoded) => Some(encoded.props),
            None => None,
        }
    }

    /// Returns the encoded payload once [`Action::Finish`] has been processed.
    pub fn encoded(&self) -> (r: Option<&CompressedData>)
        ensures
            r == (match self.spec_encoded() {
                Some(d) => Some(&d),
                None => None::<&CompressedData>,
            }),
    {
        match &self.encoded {
            Some(encoded) => Some(encoded),
            None => None,
        }
    }
}

} // verus!
