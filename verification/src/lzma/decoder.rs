//! Incremental raw `LZMA` decoder state.
//!
//! The decoding itself is the SDK's; `process` takes what one SDK decode call reported and
//! keeps the stream's totals and finished flag.

use vstd::prelude::*;

use crate::error::Error;

use super::props::Props;
use super::DecodeStep;

verus! {

/// Stateful raw `LZMA` decoder for incremental processing.
pub struct Decoder {
    props: Props,
    finished: bool,
    total_in: u64,
    total_out: u64,
}

impl Decoder {
    /// The properties the stream is decoded with.
    pub closed spec fn spec_props(self) -> Props {
        self.props
    }

    /// Whether the current stream has finished.
    pub closed spec fn spec_finished(self) -> bool {
        self.finished
    }

    /// Compressed bytes consumed so far.
    pub closed spec fn spec_total_in(self) -> u64 {
        self.total_in
    }

    /// Decoded bytes produced so far.
    pub closed spec fn spec_total_out(self) -> u64 {
        self.total_out
    }

    /// Creates a decoder for the property set, ready for a new stream.
    pub fn new(props: &Props) -> (r: Result<Self, Error>)
        ensures
            r matches Ok(d) && d.spec_props() == *props && !d.spec_finished() && d.spec_total_in()
                == 0 && d.spec_total_out() == 0,
    {
        Ok(Decoder { props: *props, finished: false, total_in: 0, total_out: 0 })
    }

    /// The properties the stream is decoded with.
    pub fn props(&self) -> (r: Props)
        ensures
            r == self.spec_props(),
    {
        self.props
    }

    /// Resets the decoder so it can process a new raw `LZMA` stream.
    pub fn reset(&mut self)
        ensures
            final(self).spec_props() == old(self).spec_props(),
            !final(self).spec_finished(),
            final(self).spec_total_in() == 0,
            final(self).spec_total_out() == 0,
    {
        self.finished = false;
        self.total_in = 0;
        self.total_out = 0;
    }

    /// Records one SDK decode call: an error is passed on and changes nothing; otherwise the
    /// totals grow by what the call consumed and wrote, the decoder is finished exactly when
    /// the call's status says so, and the counts are returned.
    pub fn process(&mut self, step: Result<DecodeStep, Error>) -> (r: Result<(usize, usize), Error>)
        requires
            step matches Ok(s) ==> old(self).spec_total_in() + s.input_consumed <= u64::MAX
                && old(self).spec_total_out() + s.output_written <= u64::MAX,
        ensures
            final(self).spec_props() == old(self).spec_props(),
            match step {
                Err(e) => r == Err::<(usize, usize), Error>(e) && *final(self) == *old(self),
                Ok(s) => {
                    &&& r == Ok::<(usize, usize), Error>((s.input_consumed, s.output_written))
                    &&& final(self).spec_finished() == s.status.spec_is_finished()
                    &&& final(self).spec_total_in() == old(self).spec_total_in() + s.input_consumed
                    &&& final(self).spec_total_out() == old(self).spec_total_out()
                        + s.output_written
                },
            },
    {
        match step {
            Err(e) => Err(e),
            Ok(s) => {
                self.finished = s.status.is_finished();
                self.total_in = self.total_in + s.input_consumed as u64;
                self.total_out = self.total_out + s.output_written as u64;
                Ok((s.input_consumed, s.output_written))
            },
        }
    }

    /// Returns `true` once the decoder has finished the current stream.
    pub fn is_finished(&self) -> (r: bool)
        ensures
            r == self.spec_finished(),
    {
        self.finished
    }

    /// Returns the total number of compressed bytes consumed so far.
    pub fn total_in(&self) -> (r: u64)
        ensures
            r == self.spec_total_in(),
    {
        self.total_in
    }

    /// Returns the total number of decoded bytes produced so far.
    pub fn total_out(&self) -> (r: u64)
        ensures
            r == self.spec_total_out(),
    {
        self.total_out
    }
}

} // verus!
