//! Legacy `.lzma` (`LZMA_Alone`) container: a 13-byte header (the five property bytes and
//! the uncompressed size as a little-endian `u64`, all ones when unknown) followed by a raw
//! `LZMA` stream.

use vstd::prelude::*;

use crate::error::{invalid_option, Error};
use crate::lzma::decoder::Decoder as RawDecoder;
use crate::lzma::encoder::{CompressedData, Encoder as RawEncoder};
use crate::lzma::options::EndMarkerMode;
use crate::lzma::props::{
    le_u32, lemma_le_join, lemma_le_split, spec_decode, Props, PropsModel, LZMA_PROPS_SIZE,
};
use crate::lzma::{Action, DecodeStep, LzmaOptions};
use crate::{append_bytes, drain_pending};

verus! {

/// Size of the legacy `.lzma` header in bytes.
pub const LZMA_ALONE_HEADER_SIZE: usize = 1 + 4 + 8;

/// The uncompressed-size field value meaning "unknown size".
pub const UNKNOWN_UNCOMPRESSED_SIZE: u64 = u64::MAX;

/// The eight little-endian bytes of `v`.
pub open spec fn u64_le_bytes(v: u64) -> Seq<u8> {
    let lo = (v % 0x1_0000_0000) as u32;
    let hi = (v / 0x1_0000_0000) as u32;
    seq![
        (lo % 256) as u8,
        (lo / 256 % 256) as u8,
        (lo / 65536 % 256) as u8,
        (lo / 16777216) as u8,
        (hi % 256) as u8,
        (hi / 256 % 256) as u8,
        (hi / 65536 % 256) as u8,
        (hi / 16777216) as u8,
    ]
}

/// The value of eight bytes read in little-endian order.
pub open spec fn le_u64(b: Seq<u8>) -> int
    recommends
        b.len() == 8,
{
    le_u32(b[0], b[1], b[2], b[3]) + 0x1_0000_0000 * le_u32(b[4], b[5], b[6], b[7])
}

/// Splitting into bytes and reading them back gives the value; reading bytes and splitting
/// the value gives the bytes.
pub proof fn lemma_u64_le_round_trip(v: u64, b: Seq<u8>)
    requires
        b.len() == 8,
    ensures
        le_u64(u64_le_bytes(v)) == v,
        0 <= le_u64(b) <= u64::MAX,
        u64_le_bytes(le_u64(b) as u64) == b,
{
    let lo = (v % 0x1_0000_0000) as u32;
    let hi = (v / 0x1_0000_0000) as u32;
    lemma_le_split(lo);
    lemma_le_split(hi);
    lemma_le_join(b[0], b[1], b[2], b[3]);
    lemma_le_join(b[4], b[5], b[6], b[7]);
    let x = le_u64(b);
    let l = le_u32(b[0], b[1], b[2], b[3]);
    let h = le_u32(b[4], b[5], b[6], b[7]);
    assert(x % 0x1_0000_0000 == l && x / 0x1_0000_0000 == h) by (nonlinear_arith)
        requires
            x == l + 0x1_0000_0000 * h,
            0 <= l < 0x1_0000_0000,
            0 <= h < 0x1_0000_0000,
    ;
    assert(u64_le_bytes(x as u64) =~= b);
}

/// Header bytes for a raw stream with property bytes `props` and uncompressed size `size`.
pub open spec fn spec_header(props: Seq<u8>, size: u64) -> Seq<u8> {
    props + u64_le_bytes(size)
}

/// Builds a complete `.lzma` file: the header for `props` and `uncompressed_size`, followed
/// by the raw `LZMA` payload.
pub fn encode_header(props: [u8; LZMA_PROPS_SIZE], uncompressed_size: u64, payload: &[u8]) -> (r:
    Vec<u8>)
    ensures
        r@ == spec_header(props@, uncompressed_size) + payload@,
{
    let mut output: Vec<u8> = Vec::new();
    append_bytes(&mut output, props.as_slice());
    let lo: u32 = (uncompressed_size % 0x1_0000_0000) as u32;
    let hi: u32 = (uncompressed_size / 0x1_0000_0000) as u32;
    output.push((lo % 256) as u8);
    output.push((lo / 256 % 256) as u8);
    output.push((lo / 65536 % 256) as u8);
    output.push((lo / 16777216) as u8);
    output.push((hi % 256) as u8);
    output.push((hi / 256 % 256) as u8);
    output.push((hi / 65536 % 256) as u8);
    output.push((hi / 16777216) as u8);
    append_bytes(&mut output, payload);
    assert(output@ =~= spec_header(props@, uncompressed_size) + payload@);
    output
}

/// The header written for a raw stream decodes back to its properties and size: the
/// property bytes are the first five bytes, and the size field reads back as the size.
pub proof fn lemma_header_round_trip(props: Seq<u8>, size: u64)
    requires
        props.len() == LZMA_PROPS_SIZE,
    ensures
        spec_header(props, size).len() == LZMA_ALONE_HEADER_SIZE,
        spec_header(props, size).take(5) == props,
        le_u64(spec_header(props, size).skip(5)) == size,
{
    lemma_u64_le_round_trip(size, u64_le_bytes(size));
    assert(spec_header(props, size).take(5) =~= props);
    assert(spec_header(props, size).skip(5) =~= u64_le_bytes(size));
}

/// A decoded `.lzma` header.
#[derive(Debug, Clone, Copy, PartialEq, Eq)]
pub struct AloneHeader {
    /// The raw stream's properties.
    pub props: Props,
    /// The uncompressed size, when the header states one.
    pub uncompressed_size: Option<u64>,
}

/// Decodes a `.lzma` header: the properties must decode (a packed byte of 225 or more is
/// [`Error::Unsupported`]); an all-ones size field means the size is unknown.
pub fn decode_header(header: &[u8; LZMA_ALONE_HEADER_SIZE]) -> (r: Result<AloneHeader, Error>)
    ensures
        r is Ok <==> header@[0] < crate::lzma::props::PACKED_PROPS_LIMIT,
        r matches Err(e) ==> e == Error::Unsupported,
        r matches Ok(h) ==> {
            &&& spec_decode(header@.take(5)) == Some(h.props@)
            &&& h.uncompressed_size == (if le_u64(header@.skip(5)) == UNKNOWN_UNCOMPRESSED_SIZE {
                None::<u64>
            } else {
                Some(le_u64(header@.skip(5)) as u64)
            })
        },
{
    let props_bytes: [u8; LZMA_PROPS_SIZE] = [header[0], header[1], header[2], header[3], header[4]];
    assert(props_bytes@ =~= header@.take(5));
    let props = match Props::decode(&props_bytes) {
        Ok(p) => p,
        Err(e) => return Err(e),
    };
    let dict_size = props.dict_size();
    if dict_size == 0 {
        return Err(
            invalid_option(
                String::from_str("dict_size"),
                String::from_str("expected a non-zero dictionary size"),
            ),
        );
    }
    proof {
        lemma_le_join(header@[5], header@[6], header@[7], header@[8]);
        lemma_le_join(header@[9], header@[10], header@[11], header@[12]);
    }
    let lo: u64 = (header[5] as u64) + 256 * (header[6] as u64) + 65536 * (header[7] as u64)
        + 16777216 * (header[8] as u64);
    let hi: u64 = (header[9] as u64) + 256 * (header[10] as u64) + 65536 * (header[11] as u64)
        + 16777216 * (header[12] as u64);
    let uncompressed_size: u64 = lo + 0x1_0000_0000 * hi;
    assert(le_u64(header@.skip(5)) == uncompressed_size);
    Ok(
        AloneHeader {
            props,
            uncompressed_size: if uncompressed_size != UNKNOWN_UNCOMPRESSED_SIZE {
                Some(uncompressed_size)
            } else {
                None
            },
        },
    )
}

/// Buffered `.lzma` encoder built on top of the raw-LZMA encoder: the raw stream is always
/// written with an end marker, behind a header that leaves the size unknown.
pub struct Encoder {
    inner: RawEncoder,
    pending: Option<Vec<u8>>,
    output_offset: usize,
    total_in: u64,
    total_out: u64,
}

impl Encoder {
    /// The inner encoder is consistent; the container bytes, once built, are the header
    /// followed by the inner encoder's stream; the counters agree with the drained prefix.
    pub closed spec fn wf(self) -> bool {
        &&& self.inner.wf()
        &&& self.total_in <= self.inner.spec_buffered().len()
        &&& self.total_out == self.output_offset
        &&& match self.pending {
            None => self.output_offset == 0 && self.inner.spec_encoded() is None,
            Some(p) => {
                &&& self.output_offset <= p@.len()
                &&& self.inner.spec_encoded() matches Some(d) && p@ == spec_header(
                    d.props@,
                    UNKNOWN_UNCOMPRESSED_SIZE,
                ) + d.compressed@
            },
        }
    }

    /// The raw encoder underneath.
    pub closed spec fn spec_inner(self) -> RawEncoder {
        self.inner
    }

    /// The complete container bytes once the stream was finished.
    pub closed spec fn spec_pending(self) -> Option<Seq<u8>> {
        match self.pending {
            Some(p) => Some(p@),
            None => None,
        }
    }

    /// How many container bytes have been handed out.
    pub closed spec fn spec_offset(self) -> nat {
        self.output_offset as nat
    }

    /// Source bytes accounted as accepted.
    pub closed spec fn spec_total_in(self) -> u64 {
        self.total_in
    }

    /// Creates a new `.lzma` encoder; the raw stream is written with an end marker.
    pub fn new(options: LzmaOptions) -> (r: Self)
        ensures
            r.wf(),
            r.spec_inner().spec_options()@ == (crate::lzma::options::OptionsModel {
                end_marker: EndMarkerMode::Enabled,
                ..options@
            }),
            r.spec_inner().spec_buffered() == Seq::<u8>::empty(),
            r.spec_pending() is None,
            r.spec_total_in() == 0,
            r.spec_offset() == 0,
    {
        let options = options.with_end_marker(EndMarkerMode::Enabled);
        Encoder {
            inner: RawEncoder::new(options),
            pending: None,
            output_offset: 0,
            total_in: 0,
            total_out: 0,
        }
    }

    /// The raw encoder underneath; the SDK compresses its buffered input.
    pub fn inner(&self) -> (r: &RawEncoder)
        ensures
            *r == self.spec_inner(),
    {
        &self.inner
    }

    /// Encodes the next chunk of input.
    ///
    /// Before the stream is finished, input is buffered by the raw encoder; on
    /// [`Action::Finish`] the raw stream is compressed (`compressed` is the SDK encoder's
    /// result on the whole buffered input, given exactly on that call) and the container bytes
    /// are built. Input after that is refused with [`Error::Param`]. Each call drains the
    /// next container bytes into `output`.
    pub fn process(
        &mut self,
        input: &[u8],
        output: &mut [u8],
        action: Action,
        compressed: Option<Result<CompressedData, Error>>,
    ) -> (r: Result<(usize, usize), Error>)
        requires
            old(self).wf(),
            compressed is Some <==> (old(self).spec_pending() is None && action == Action::Finish),
            input@.len() + old(self).spec_inner().spec_buffered().len() <= usize::MAX,
        ensures
            final(self).wf(),
            old(self).spec_pending() is Some && input@.len() > 0 ==> r == Err::<(usize, usize), Error>(
                Error::Param,
            ) && *final(self) == *old(self) && final(output)@ == old(output)@,
            old(self).spec_pending() is None ==> final(self).spec_inner().spec_buffered() == old(
                self,
            ).spec_inner().spec_buffered() + input@,
            compressed matches Some(Err(e)) ==> {
                &&& r == Err::<(usize, usize), Error>(e)
                &&& final(self).spec_pending() is None
                &&& final(self).spec_total_in() == old(self).spec_total_in()
                &&& final(output)@ == old(output)@
            },
            !(old(self).spec_pending() is Some && input@.len() > 0) && !(compressed matches Some(
                Err(_),
            )) ==> {
                let pending = match compressed {
                    Some(Ok(d)) => Some(spec_header(d.props@, UNKNOWN_UNCOMPRESSED_SIZE) + d.compressed@),
                    _ => old(self).spec_pending(),
                };
                let start = if compressed is Some {
                    0
                } else {
                    old(self).spec_offset()
                };
                &&& final(self).spec_pending() == pending
                &&& final(self).spec_total_in() == (if old(self).spec_pending() is None {
                    old(self).spec_total_in() + input@.len()
                } else {
                    old(self).spec_total_in() as int
                })
                &&& match pending {
                    None => {
                        &&& r == Ok::<(usize, usize), Error>((input@.len() as usize, 0usize))
                        &&& final(output)@ == old(output)@
                    },
                    Some(p) => {
                        let w = vstd::math::min(p.len() - start, old(output)@.len() as int);
                        &&& r == Ok::<(usize, usize), Error>((input@.len() as usize, w as usize))
                        &&& final(self).spec_offset() == start + w
                        &&& final(output)@ == p.subrange(start as int, start + w) + old(output)@.skip(w)
                    },
                }
            },
    {
        if self.pending.is_none() {
            let mut nothing: Vec<u8> = Vec::new();
            let (consumed, _) = match self.inner.process(input, nothing.as_mut_slice(), action, compressed) {
                Ok(counts) => counts,
                Err(e) => return Err(e),
            };
            self.total_in = self.total_in + consumed as u64;
            if action.is_finish() {
                let props = match self.inner.properties() {
                    Some(p) => p,
                    None => return Err(Error::Fail),
                };
                let payload = match self.inner.encoded() {
                    Some(d) => d,
                    None => return Err(Error::Fail),
                };
                let pending = encode_header(props, UNKNOWN_UNCOMPRESSED_SIZE, payload.compressed.as_slice());
                self.pending = Some(pending);
            }
        } else if input.len() != 0 {
            return Err(Error::Param);
        }
        let written = match &self.pending {
            Some(pending) => {
                let mut offset = self.output_offset;
                let written = drain_pending(pending.as_slice(), &mut offset, output);
                self.output_offset = offset;
                self.total_out = offset as u64;
                written
            },
            None => 0,
        };
        Ok((input.len(), written))
    }

    /// Returns `true` once all buffered output has been drained.
    pub fn is_finished(&self) -> (r: bool)
        ensures
            r == (self.spec_pending() matches Some(p) && self.spec_offset() == p.len()),
    {
        match &self.pending {
            Some(pending) => self.output_offset == pending.len(),
            None => false,
        }
    }

    /// Returns the total number of source bytes accepted by the encoder.
    pub fn total_in(&self) -> (r: u64)
        ensures
            r == self.spec_total_in(),
    {
        self.total_in
    }

    /// Returns the total number of encoded bytes written through [`Self::process`].
    pub fn total_out(&self) -> (r: u64)
        requires
            self.wf(),
        ensures
            r == self.spec_offset(),
            self.spec_pending() is None ==> r == 0,
            self.spec_pending() matches Some(p) ==> r <= p.len(),
    {
        self.total_out
    }

    /// What a consistent encoder guarantees its callers: nothing is drained before the
    /// container bytes exist; afterwards they are the header (the raw stream's properties and
    /// an unknown size) followed by the raw stream, and the drained prefix lies within them;
    /// the accepted-input count never exceeds what the raw encoder buffered, which fits in
    /// memory.
    pub proof fn lemma_drain_bounds(self)
        requires
            self.wf(),
        ensures
            self.spec_total_in() <= self.spec_inner().spec_buffered().len(),
            self.spec_inner().spec_buffered().len() <= usize::MAX,
            self.spec_pending() is None ==> self.spec_offset() == 0
                && self.spec_inner().spec_encoded() is None,
            self.spec_pending() matches Some(p) ==> {
                &&& self.spec_offset() <= p.len()
                &&& self.spec_inner().spec_encoded() matches Some(d) && p == spec_header(
                    d.props@,
                    UNKNOWN_UNCOMPRESSED_SIZE,
                ) + d.compressed@
            },
    {
        self.inner.lemma_drain_bounds();
    }
}

/// How far the header of a `.lzma` stream has got after feeding a chunk to
/// [`Decoder::read_header`].
#[derive(Debug, Clone, Copy, PartialEq, Eq)]
pub enum HeaderStep {
    /// The header is still incomplete; the chunk's first `usize` bytes were taken into it and
    /// the call is complete: it consumed that many bytes and wrote nothing.
    Pending(usize),
    /// The header is complete; the chunk's first `usize` bytes were taken into it, and the
    /// rest of the chunk is raw `LZMA` payload for the SDK decoder.
    Ready(usize),
}

/// Incremental `.lzma` decoder: collects the header, then follows the raw `LZMA` stream and
/// checks it against the uncompressed size the header states.
///
/// Decoding a chunk is [`Decoder::read_header`] on the chunk, then (when the header is
/// complete) one SDK decode call on the rest of the chunk, whose report goes to
/// [`Decoder::process`].
pub struct Decoder {
    header: Vec<u8>,
    inner: Option<RawDecoder>,
    expected_uncompressed_size: Option<u64>,
    finished: bool,
    total_in: u64,
    total_out: u64,
}

impl Decoder {
    /// The header is collected before the raw decoder exists.
    pub closed spec fn wf(self) -> bool {
        &&& self.header@.len() <= LZMA_ALONE_HEADER_SIZE
        &&& self.inner is Some ==> self.header@.len() == LZMA_ALONE_HEADER_SIZE
    }

    /// Header bytes collected so far.
    pub closed spec fn spec_header(self) -> Seq<u8> {
        self.header@
    }

    /// The raw decoder, once the header is complete.
    pub closed spec fn spec_inner(self) -> Option<RawDecoder> {
        self.inner
    }

    /// The uncompressed size the header states, if any.
    pub closed spec fn spec_expected(self) -> Option<u64> {
        self.expected_uncompressed_size
    }

    /// Whether the stream has finished.
    pub closed spec fn spec_finished(self) -> bool {
        self.finished
    }

    /// Encoded bytes consumed so far.
    pub closed spec fn spec_total_in(self) -> u64 {
        self.total_in
    }

    /// Decoded bytes produced so far.
    pub closed spec fn spec_total_out(self) -> u64 {
        self.total_out
    }

    /// Creates a new `.lzma` decoder.
    pub fn new() -> (r: Result<Self, Error>)
        ensures
            r matches Ok(d) && {
                &&& d.wf()
                &&& d.spec_header() == Seq::<u8>::empty()
                &&& d.spec_inner() is None
                &&& d.spec_expected() is None
                &&& !d.spec_finished()
                &&& d.spec_total_in() == 0
                &&& d.spec_total_out() == 0
            },
    {
        Ok(
            Decoder {
                header: Vec::new(),
                inner: None,
                expected_uncompressed_size: None,
                finished: false,
                total_in: 0,
                total_out: 0,
            },
        )
    }

    /// The raw stream's properties, once the header is complete; the SDK decoder is created
    /// from them.
    pub fn props(&self) -> (r: Option<Props>)
        ensures
            r == (match self.spec_inner() {
                Some(d) => Some(d.spec_props()),
                None => None::<Props>,
            }),
    {
        match &self.inner {
            Some(inner) => Some(inner.props()),
            None => None,
        }
    }

    /// Feeds the start of a chunk to the header.
    ///
    /// A finished decoder refuses more input with [`Error::Param`]. Until the header is
    /// complete, as many bytes as it still needs are taken from `input`; if it is still
    /// incomplete, [`Action::Finish`] fails with [`Error::InputEof`], and otherwise the
    /// taken bytes are accounted and the call is complete. A completed header is decoded (its
    /// properties must decode) and the raw decoder is created.
    pub fn read_header(&mut self, input: &[u8], action: Action) -> (r: Result<HeaderStep, Error>)
        requires
            old(self).wf(),
            old(self).spec_total_in() + LZMA_ALONE_HEADER_SIZE <= u64::MAX,
        ensures
            final(self).wf(),
            old(self).spec_finished() ==> r == Err::<HeaderStep, Error>(Error::Param) && *final(self)
                == *old(self),
            !old(self).spec_finished() && old(self).spec_inner() is Some ==> r == Ok::<
                HeaderStep,
                Error,
            >(HeaderStep::Ready(0)) && *final(self) == *old(self),
            !old(self).spec_finished() && old(self).spec_inner() is None ==> {
                let take = vstd::math::min(
                    LZMA_ALONE_HEADER_SIZE - old(self).spec_header().len(),
                    input@.len() as int,
                );
                let header = old(self).spec_header() + input@.take(take);
                &&& final(self).spec_header() == header
                &&& final(self).spec_finished() == old(self).spec_finished()
                &&& final(self).spec_total_out() == old(self).spec_total_out()
                &&& if header.len() < LZMA_ALONE_HEADER_SIZE {
                    &&& final(self).spec_inner() is None
                    &&& if action == Action::Finish {
                        &&& r == Err::<HeaderStep, Error>(Error::InputEof)
                        &&& final(self).spec_total_in() == old(self).spec_total_in()
                    } else {
                        &&& r == Ok::<HeaderStep, Error>(HeaderStep::Pending(take as usize))
                        &&& final(self).spec_total_in() == old(self).spec_total_in() + take
                    }
                } else if header[0] >= crate::lzma::props::PACKED_PROPS_LIMIT {
                    &&& r == Err::<HeaderStep, Error>(Error::Unsupported)
                    &&& final(self).spec_inner() is None
                    &&& final(self).spec_total_in() == old(self).spec_total_in()
                } else {
                    let size = le_u64(header.skip(5));
                    &&& r == Ok::<HeaderStep, Error>(HeaderStep::Ready(take as usize))
                    &&& final(self).spec_total_in() == old(self).spec_total_in()
                    &&& final(self).spec_expected() == (if size == UNKNOWN_UNCOMPRESSED_SIZE {
                        None::<u64>
                    } else {
                        Some(size as u64)
                    })
                    &&& final(self).spec_inner() matches Some(d) && {
                        &&& spec_decode(header.take(5)) == Some(d.spec_props()@)
                        &&& !d.spec_finished()
                        &&& d.spec_total_in() == 0
                        &&& d.spec_total_out() == 0
                    }
                }
            },
    {
        if self.finished {
            return Err(Error::Param);
        }
        if self.inner.is_some() {
            return Ok(HeaderStep::Ready(0));
        }
        let needed = LZMA_ALONE_HEADER_SIZE - self.header.len();
        let take = if needed < input.len() {
            needed
        } else {
            input.len()
        };
        let ghost old_header = self.header@;
        let mut k: usize = 0;
        while k < take
            invariant
                k <= take,
                take <= input@.len(),
                old_header.len() + take <= LZMA_ALONE_HEADER_SIZE,
                self.header@ == old_header + input@.take(k as int),
                self.inner is None,
                !self.finished,
                self.total_in == old(self).total_in,
                self.total_out == old(self).total_out,
                self.expected_uncompressed_size == old(self).expected_uncompressed_size,
                old(self).total_in + LZMA_ALONE_HEADER_SIZE <= u64::MAX,
            decreases take - k,
        {
            self.header.push(input[k]);
            k = k + 1;
            assert(self.header@ =~= old_header + input@.take(k as int));
        }
        if self.header.len() < LZMA_ALONE_HEADER_SIZE {
            if action.is_finish() {
                return Err(Error::InputEof);
            }
            self.total_in = self.total_in + take as u64;
            return Ok(HeaderStep::Pending(take));
        }
        let bytes: [u8; LZMA_ALONE_HEADER_SIZE] = [
            self.header[0],
            self.header[1],
            self.header[2],
            self.header[3],
            self.header[4],
            self.header[5],
            self.header[6],
            self.header[7],
            self.header[8],
            self.header[9],
            self.header[10],
            self.header[11],
            self.header[12],
        ];
        assert(bytes@ =~= self.header@);
        let header = match decode_header(&bytes) {
            Ok(h) => h,
            Err(e) => return Err(e),
        };
        self.expected_uncompressed_size = header.uncompressed_size;
        let inner = match RawDecoder::new(&header.props) {
            Ok(d) => d,
            Err(e) => return Err(e),
        };
        self.inner = Some(inner);
        Ok(HeaderStep::Ready(take))
    }

    /// Finishes a call whose chunk had `input_len` bytes, the first `header_consumed` of them
    /// taken by the header (as [`Decoder::read_header`] reported), after the SDK decoded the
    /// rest of the chunk and reported `step`.
    ///
    /// An SDK error is passed on. The decoded count must fit in a `u64`
    /// ([`Error::SizeOverflow`] otherwise). When the header states a size, decoding past it,
    /// or ending the raw stream anywhere else, is [`Error::Data`]; reaching it exactly on
    /// [`Action::Finish`] with the whole chunk consumed finishes the stream.
    pub fn process(
        &mut self,
        input_len: usize,
        header_consumed: usize,
        step: Result<DecodeStep, Error>,
        action: Action,
    ) -> (r: Result<(usize, usize), Error>)
        requires
            old(self).wf(),
            old(self).spec_inner() is Some,
            header_consumed <= input_len,
            step matches Ok(s) ==> {
                &&& header_consumed + s.input_consumed <= input_len
                &&& old(self).spec_inner()->0.spec_total_in() + s.input_consumed <= u64::MAX
                &&& old(self).spec_inner()->0.spec_total_out() + s.output_written <= u64::MAX
                &&& old(self).spec_total_in() + header_consumed + s.input_consumed <= u64::MAX
            },
        ensures
            final(self).wf(),
            final(self).spec_header() == old(self).spec_header(),
            final(self).spec_expected() == old(self).spec_expected(),
            final(self).spec_inner() is Some,
            step matches Err(e) ==> r == Err::<(usize, usize), Error>(e) && *final(self) == *old(self),
            step matches Ok(s) ==> {
                let inner = final(self).spec_inner()->0;
                let consumed = header_consumed + s.input_consumed;
                let total_out = old(self).spec_total_out() + s.output_written;
                let inner_finished = s.status.spec_is_finished();
                &&& inner.spec_props() == old(self).spec_inner()->0.spec_props()
                &&& inner.spec_finished() == inner_finished
                &&& inner.spec_total_in() == old(self).spec_inner()->0.spec_total_in() + s.input_consumed
                &&& inner.spec_total_out() == old(self).spec_inner()->0.spec_total_out() + s.output_written
                &&& if total_out > u64::MAX {
                    &&& r == Err::<(usize, usize), Error>(Error::SizeOverflow)
                    &&& final(self).spec_finished() == old(self).spec_finished()
                    &&& final(self).spec_total_in() == old(self).spec_total_in()
                    &&& final(self).spec_total_out() == old(self).spec_total_out()
                } else {
                    &&& final(self).spec_finished() == (inner_finished || (
                    old(self).spec_expected() matches Some(x) && total_out <= x && (!inner_finished
                        || total_out == x) && action == Action::Finish && total_out == x && consumed
                        == input_len))
                    &&& if old(self).spec_expected() matches Some(x) && (total_out > x || (
                    inner_finished && total_out != x)) {
                        &&& r == Err::<(usize, usize), Error>(Error::Data)
                        &&& final(self).spec_total_in() == old(self).spec_total_in()
                        &&& final(self).spec_total_out() == old(self).spec_total_out()
                    } else {
                        &&& r == Ok::<(usize, usize), Error>((consumed as usize, s.output_written))
                        &&& final(self).spec_total_in() == old(self).spec_total_in() + consumed
                        &&& final(self).spec_total_out() == total_out
                    }
                }
            },
    {
        let mut inner = match self.inner.take() {
            Some(d) => d,
            None => return Err(Error::Fail),
        };
        let counts = inner.process(step);
        let inner_finished = inner.is_finished();
        self.inner = Some(inner);
        let (payload_read, payload_written) = match counts {
            Ok(c) => c,
            Err(e) => return Err(e),
        };
        let consumed = header_consumed + payload_read;
        let written = payload_written;
        let total_out = match self.total_out.checked_add(written as u64) {
            Some(t) => t,
            None => return Err(Error::SizeOverflow),
        };
        self.finished = inner_finished;
        if let Some(expected_uncompressed_size) = self.expected_uncompressed_size {
            if total_out > expected_uncompressed_size {
                return Err(Error::Data);
            }
            if self.finished && total_out != expected_uncompressed_size {
                return Err(Error::Data);
            }
            if action.is_finish() && total_out == expected_uncompressed_size && consumed == input_len {
                self.finished = true;
            }
        }
        self.total_in = self.total_in + consumed as u64;
        self.total_out = total_out;
        Ok((consumed, written))
    }

    /// Returns `true` once the decoder has finished the current stream.
    pub fn is_finished(&self) -> (r: bool)
        ensures
            r == self.spec_finished(),
    {
        self.finished
    }

    /// Returns the total number of encoded bytes consumed so far.
    pub fn total_in(&self) -> (r: u64)
        ensures
            r == self.spec_total_in(),
    {
        self.total_in
    }

    /// Returns the total number of decoded bytes produced so far.
    pub fn total_out(&self) -> (r: u64)
        ensures
            r == self.spec_total_out(),
    {
        self.total_out
    }
}

} // verus!
