//! Incremental `XZ` decoder state.
//!
//! The unpacking itself is the SDK's; `process` takes what one SDK unpack call reported and
//! keeps the stream's totals and finished flag.

use vstd::prelude::*;

use crate::error::Error;

verus! {

/// Outcome reported by one SDK `XZ` unpack call.
#[derive(Debug, Clone, Copy, PartialEq, Eq)]
pub enum DecodeStatus {
    /// The SDK did not provide a more specific status value.
    NotSpecified,
    /// The stream finished with an end marker.
    FinishedWithMark,
    /// The stream is still in progress.
    NotFinished,
    /// More input is required to continue decoding.
    NeedsMoreInput,
}

impl DecodeStatus {
    /// The status an SDK `ECoderStatus` code stands for; unknown codes read as unspecified.
    pub open spec fn spec_from_raw(status: u32) -> DecodeStatus {
        if status == 1 {
            DecodeStatus::FinishedWithMark
        } else if status == 2 {
            DecodeStatus::NotFinished
        } else if status == 3 {
            DecodeStatus::NeedsMoreInput
        } else {
            DecodeStatus::NotSpecified
        }
    }

    /// Converts an SDK `ECoderStatus` code to a [`DecodeStatus`].
    pub fn from_raw(status: u32) -> (r: DecodeStatus)
        ensures
            r == Self::spec_from_raw(status),
    {
        if status == 1 {
            DecodeStatus::FinishedWithMark
        } else if status == 2 {
            DecodeStatus::NotFinished
        } else if status == 3 {
            DecodeStatus::NeedsMoreInput
        } else {
            DecodeStatus::NotSpecified
        }
    }
}

/// The SDK's `ECoderStatus` codes: 0 leaves the status unspecified, 1 is a stream that
/// ended on its end mark, 2 one that is not finished, and 3 one that needs more input. Known
/// codes give distinct statuses, and a step ends the stream when the unpacker says a stream
/// was finished or when it reports code 1.
pub proof fn lemma_status_codes(s: u32, t: u32, step: DecodeStep)
    ensures
        DecodeStatus::spec_from_raw(s) == DecodeStatus::FinishedWithMark <==> s == 1,
        DecodeStatus::spec_from_raw(s) == DecodeStatus::NotFinished <==> s == 2,
        DecodeStatus::spec_from_raw(s) == DecodeStatus::NeedsMoreInput <==> s == 3,
        DecodeStatus::spec_from_raw(s) == DecodeStatus::NotSpecified <==> (s == 0 || s > 3),
        1 <= s <= 3 && DecodeStatus::spec_from_raw(s) == DecodeStatus::spec_from_raw(t) ==> s == t,
        step.status == DecodeStatus::spec_from_raw(s) ==> (step.spec_stream_finished() <==> (
        step.stream_was_finished || s == 1)),
{
}

/// What one SDK unpack call reported.
#[derive(Debug, Clone, Copy, PartialEq, Eq)]
pub struct DecodeStep {
    /// Number of bytes of input consumed.
    pub input_consumed: usize,
    /// Number of bytes of output written.
    pub output_written: usize,
    /// Status of the unpack call.
    pub status: DecodeStatus,
    /// Whether the unpacker reports that a whole stream has been finished.
    pub stream_was_finished: bool,
}

impl DecodeStep {
    /// Whether this step ends the stream: the unpacker says a stream was finished, or the
    /// call ended on an end mark.
    pub open spec fn spec_stream_finished(self) -> bool {
        self.stream_was_finished || self.status == DecodeStatus::FinishedWithMark
    }

    /// Returns whether this step ends the stream.
    pub fn stream_finished(&self) -> (r: bool)
        ensures
            r == self.spec_stream_finished(),
    {
        self.stream_was_finished || match self.status {
            DecodeStatus::FinishedWithMark => true,
            _ => false,
        }
    }
}

/// Stateful `XZ` decoder for incremental processing.
pub struct Decoder {
    finished: bool,
    total_in: u64,
    total_out: u64,
}

impl Decoder {
    /// Whether the current stream has finished.
    pub closed spec fn spec_finished(self) -> bool {
        self.finished
    }

    /// Compressed bytes consumed so far.
    pub closed spec fn spec_total_in(self) -> u64 {
        self.total_in
    }

    /// Decoded bytes produced so far.
    pub closed spec fn spec_total_out(self) -> u64 {
        self.total_out
    }

    /// Creates a decoder ready for a new stream.
    pub fn new() -> (r: Result<Self, Error>)
        ensures
            r matches Ok(d) && !d.spec_finished() && d.spec_total_in() == 0 && d.spec_total_out()
                == 0,
    {
        Ok(Decoder { finished: false, total_in: 0, total_out: 0 })
    }

    /// Resets the decoder so it can process a new `XZ` stream.
    pub fn reset(&mut self)
        ensures
            !final(self).spec_finished(),
            final(self).spec_total_in() == 0,
            final(self).spec_total_out() == 0,
    {
        self.finished = false;
        self.total_in = 0;
        self.total_out = 0;
    }

    /// Records one SDK unpack call: an error is passed on and changes nothing; otherwise the
    /// totals grow by what the call consumed and wrote, the decoder is finished exactly when
    /// the step ends the stream, and the counts are returned.
    pub fn process(&mut self, step: Result<DecodeStep, Error>) -> (r: Result<(usize, usize), Error>)
        requires
            step matches Ok(s) ==> old(self).spec_total_in() + s.input_consumed <= u64::MAX
                && old(self).spec_total_out() + s.output_written <= u64::MAX,
        ensures
            match step {
                Err(e) => r == Err::<(usize, usize), Error>(e) && *final(self) == *old(self),
                Ok(s) => {
                    &&& r == Ok::<(usize, usize), Error>((s.input_consumed, s.output_written))
                    &&& final(self).spec_finished() == s.spec_stream_finished()
                    &&& final(self).spec_total_in() == old(self).spec_total_in() + s.input_consumed
                    &&& final(self).spec_total_out() == old(self).spec_total_out()
                        + s.output_written
                },
            },
    {
        match step {
            Err(e) => Err(e),
            Ok(s) => {
                self.finished = s.stream_finished();
                self.total_in = self.total_in + s.input_consumed as u64;
                self.total_out = self.total_out + s.output_written as u64;
                Ok((s.input_consumed, s.output_written))
            },
        }
    }

    /// Returns `true` once the decoder has finished the current stream.
    pub fn is_finished(&self) -> (r: bool)
        ensures
            r == self.spec_finished(),
    {
        self.finished
    }

    /// Returns the total number of compressed bytes consumed so far.
    pub fn total_in(&self) -> (r: u64)
        ensures
            r == self.spec_total_in(),
    {
        self.total_in
    }

    /// Returns the total number of decoded bytes produced so far.
    pub fn total_out(&self) -> (r: u64)
        ensures
            r == self.spec_total_out(),
    {
        self.total_out
    }
}

} // verus!
