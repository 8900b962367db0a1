//! Buffered `XZ` encoder state.
//!
//! Input is buffered until [`Action::Finish`]; at that point the SDK's `XZ` encoder
//! compresses the whole buffer and later calls drain the result. The encoder itself is the
//! SDK's: `process` takes its result as an argument and does everything around it.

use vstd::prelude::*;

use crate::error::Error;
use crate::{append_bytes, drain_pending};

use crate::lzma::Action;
use super::XzOptions;

verus! {

/// Output of an `XZ` encode operation.
#[derive(Debug, Clone, PartialEq, Eq)]
pub struct CompressedData {
    /// Number of bytes in the original uncompressed payload.
    pub uncompressed_len: usize,
    /// Encoded `XZ` stream bytes.
    pub compressed: Vec<u8>,
}

/// Buffered `XZ` encoder that emits output after [`Action::Finish`].
pub struct Encoder {
    options: XzOptions,
    buffered_input: Vec<u8>,
    encoded: Option<CompressedData>,
    output_offset: usize,
    total_in: u64,
    total_out: u64,
}

impl Encoder {
    /// The counters agree with the buffered input and the drained prefix, and the drained
    /// prefix lies within the encoded stream.
    pub closed spec fn wf(self) -> bool {
        &&& self.total_in == self.buffered_input@.len()
        &&& self.total_out == self.output_offset
        &&& match self.encoded {
            None => self.output_offset == 0,
            Some(d) => {
                &&& self.output_offset <= d.compressed@.len()
                &&& d.uncompressed_len == self.buffered_input@.len()
            },
        }
    }

    /// The options the encoder was created with.
    pub closed spec fn spec_options(self) -> XzOptions {
        self.options
    }

    /// All input accepted so far.
    pub closed spec fn spec_buffered(self) -> Seq<u8> {
        self.buffered_input@
    }

    /// The compressed stream once it exists.
    pub closed spec fn spec_encoded(self) -> Option<CompressedData> {
        self.encoded
    }

    /// How many compressed bytes have been handed out.
    pub closed spec fn spec_offset(self) -> nat {
        self.output_offset as nat
    }

    /// Creates a buffered `XZ` encoder with nothing buffered yet.
    pub fn new(options: XzOptions) -> (r: Self)
        ensures
            r.wf(),
            r.spec_options() == options,
            r.spec_buffered() == Seq::<u8>::empty(),
            r.spec_encoded() is None,
            r.spec_offset() == 0,
    {
        Encoder {
            options,
            buffered_input: Vec::new(),
            encoded: None,
            output_offset: 0,
            total_in: 0,
            total_out: 0,
        }
    }

    /// The options the encoder compresses with.
    pub fn options(&self) -> (r: &XzOptions)
        ensures
            *r == self.spec_options(),
    {
        &self.options
    }

    /// All input accepted so far; the SDK encoder compresses exactly this.
    pub fn buffered_input(&self) -> (r: &[u8])
        ensures
            r@ == self.spec_buffered(),
    {
        self.buffered_input.as_slice()
    }

    /// Processes the next chunk of input and writes encoded bytes into `output`.
    ///
    /// Input after the stream was encoded is refused with [`Error::Param`]. Otherwise the
    /// input is buffered; on the first [`Action::Finish`] the stream is encoded, and
    /// `compressed` is the SDK encoder's result on the whole buffered input (it is given
    /// exactly on that call). Once encoded, each call drains the next encoded bytes into
    /// `output`. Returns the number of input bytes consumed and output bytes written.
    pub fn process(
        &mut self,
        input: &[u8],
        output: &mut [u8],
        action: Action,
        compressed: Option<Result<CompressedData, Error>>,
    ) -> (r: Result<(usize, usize), Error>)
        requires
            old(self).wf(),
            compressed is Some <==> (action == Action::Finish && old(self).spec_encoded() is None
                && input@.len() + old(self).spec_buffered().len() <= usize::MAX),
            input@.len() + old(self).spec_buffered().len() <= usize::MAX,
        ensures
            final(self).wf(),
            final(self).spec_options() == old(self).spec_options(),
            old(self).spec_encoded() is Some && input@.len() > 0 ==> r == Err::<(usize, usize), Error>(
                Error::Param,
            ) && *final(self) == *old(self) && final(output)@ == old(output)@,
            !(old(self).spec_encoded() is Some && input@.len() > 0) ==> {
                &&& final(self).spec_buffered() == old(self).spec_buffered() + input@
                &&& match compressed {
                    Some(Err(e)) => {
                        &&& r == Err::<(usize, usize), Error>(e)
                        &&& final(self).spec_encoded() is None
                        &&& final(output)@ == old(output)@
                    },
                    _ => {
                        let encoded = match compressed {
                            Some(Ok(d)) => Some(
                                CompressedData {
                                    uncompressed_len: final(self).spec_buffered().len() as usize,
                                    compressed: d.compressed,
                                },
                            ),
                            _ => old(self).spec_encoded(),
                        };
                        &&& final(self).spec_encoded() == encoded
                        &&& match encoded {
                            None => {
                                &&& r == Ok::<(usize, usize), Error>((input@.len() as usize, 0usize))
                                &&& final(self).spec_offset() == 0
                                &&& final(output)@ == old(output)@
                            },
                            Some(d) => {
                                let start = if compressed is Some {
                                    0
                                } else {
                                    old(self).spec_offset()
                                };
                                let w = vstd::math::min(
                                    d.compressed@.len() - start,
                                    old(output)@.len() as int,
                                );
                                &&& r == Ok::<(usize, usize), Error>((input@.len() as usize, w as usize))
                                &&& final(self).spec_offset() == start + w
                                &&& final(output)@ == d.compressed@.subrange(start as int, start + w)
                                    + old(output)@.skip(w)
                            },
                        }
                    },
                }
            },
    {
        if self.encoded.is_some() && input.len() != 0 {
            return Err(Error::Param);
        }
        append_bytes(&mut self.buffered_input, input);
        self.total_in = self.buffered_input.len() as u64;
        if let Some(result) = compressed {
            match result {
                Ok(d) => {
                    let uncompressed_len = self.buffered_input.len();
                    self.encoded = Some(
                        CompressedData { uncompressed_len, compressed: d.compressed },
                    );
                    self.output_offset = 0;
                    self.total_out = 0;
                },
                Err(e) => {
                    return Err(e);
                },
            }
        }
        let written = match &self.encoded {
            Some(encoded) => {
                let mut offset = self.output_offset;
                let written = drain_pending(encoded.compressed.as_slice(), &mut offset, output);
                self.output_offset = offset;
                self.total_out = offset as u64;
                written
            },
            None => 0,
        };
        Ok((input.len(), written))
    }

    /// Returns `true` once the encoded stream has been fully drained.
    pub fn is_finished(&self) -> (r: bool)
        ensures
            r == (self.spec_encoded() matches Some(d) && self.spec_offset() == d.compressed@.len()),
    {
        match &self.encoded {
            Some(encoded) => self.output_offset == encoded.compressed.len(),
            None => false,
        }
    }

    /// Returns the total number of source bytes accepted by the encoder.
    pub fn total_in(&self) -> (r: u64)
        requires
            self.wf(),
        ensures
            r == self.spec_buffered().len(),
    {
        self.total_in
    }

    /// Returns the total number of encoded bytes written through [`Self::process`].
    pub fn total_out(&self) -> (r: u64)
        requires
            self.wf(),
        ensures
            r == self.spec_offset(),
            self.spec_encoded() is None ==> r == 0,
            self.spec_encoded() matches Some(d) ==> r <= d.compressed@.len(),
    {
        self.total_out
    }

    /// What a consistent encoder guarantees its callers: nothing is drained before the
    /// stream is encoded; afterwards the drained prefix lies within the encoded stream,
    /// whose recorded uncompressed length is the length of all accepted input; the buffered
    /// input fits in memory, which bounds what one more call may add.
    pub proof fn lemma_drain_bounds(self)
        requires
            self.wf(),
        ensures
            self.spec_encoded() is None ==> self.spec_offset() == 0,
            self.spec_encoded() matches Some(d) ==> self.spec_offset() <= d.compressed@.len()
                && d.uncompressed_len == self.spec_buffered().len(),
            self.spec_buffered().len() <= usize::MAX,
    {
        assert(self.buffered_input@.len() == self.buffered_input.len());
    }

    /// Returns the encoded payload once [`Action::Finish`] has been processed.
    pub fn encoded(&self) -> (r: Option<&CompressedData>)
        ensures
            r == (match self.spec_encoded() {
                Some(d) => Some(&d),
                None => None::<&CompressedData>,
            }),
    {
        match &self.encoded {
            Some(encoded) => Some(encoded),
            None => None,
        }
    }
}

} // verus!
