//! Raw `LZMA` streams: options, the five-byte properties header, the buffered encoder and the
//! incremental decoder state.

use vstd::prelude::*;

pub mod decoder;
pub mod encoder;
pub mod options;
pub mod props;

pub use decoder::Decoder as RawDecoder;
pub use encoder::CompressedData as LzmaCompressedData;
pub use encoder::Encoder as RawEncoder;
pub use options::Options as LzmaOptions;
pub use options::OptionsBuilder as LzmaOptionsBuilder;
pub use options::{Algorithm, EndMarkerMode, HashBytes, MatchFinderMode};
pub use options::{CompressionLevel, FastBytes, LiteralContextBits, LiteralPosBits, PosBits};
pub use props::Props as LzmaProps;
pub use props::LZMA_PROPS_SIZE;
pub use Action as LzmaAction;

verus! {

/// High-level action used by the owned encoder and decoder wrappers.
#[derive(Debug, Clone, Copy, PartialEq, Eq)]
pub enum Action {
    /// Continue buffering or decoding input without finalizing the stream.
    Run,
    /// Finalize the current stream and flush all remaining output.
    Finish,
}

impl Action {
    /// The finish mode a decode step runs with for this action.
    pub fn finish_mode(self) -> (r: FinishMode)
        ensures
            r == (match self {
                Action::Run => FinishMode::Any,
                Action::Finish => FinishMode::End,
            }),
    {
        match self {
            Action::Run => FinishMode::Any,
            Action::Finish => FinishMode::End,
        }
    }

    /// Whether this action finalizes the stream.
    pub fn is_finish(self) -> (r: bool)
        ensures
            r == (self == Action::Finish),
    {
        match self {
            Action::Run => false,
            Action::Finish => true,
        }
    }
}

/// Finish mode used by decode operations.
#[derive(Debug, Clone, Copy, PartialEq, Eq)]
pub enum FinishMode {
    /// Decode as much as possible without requiring the stream to end.
    Any,
    /// Require the current call to finish the stream.
    End,
}

impl FinishMode {
    /// The SDK's code for this mode (`LZMA_FINISH_ANY` is 0, `LZMA_FINISH_END` is 1).
    pub fn as_raw(self) -> (r: u32)
        ensures
            r == (match self {
                FinishMode::Any => 0u32,
                FinishMode::End => 1u32,
            }),
    {
        match self {
            FinishMode::Any => 0,
            FinishMode::End => 1,
        }
    }
}

/// Outcome reported by one SDK `LZMA`/`LZMA2` decode call.
#[derive(Debug, Clone, Copy, PartialEq, Eq)]
pub enum DecodeStatus {
    /// The SDK did not provide a more specific status value.
    NotSpecified,
    /// The stream finished and consumed an explicit end marker.
    FinishedWithMark,
    /// The stream is still in progress.
    NotFinished,
    /// More input is required to continue decoding.
    NeedsMoreInput,
    /// The stream may have finished even though no explicit marker was seen.
    MaybeFinishedWithoutMark,
}

impl DecodeStatus {
    /// The status an SDK `ELzmaStatus` code stands for; unknown codes read as unspecified.
    pub open spec fn spec_from_raw(status: u32) -> DecodeStatus {
        if status == 1 {
            DecodeStatus::FinishedWithMark
        } else if status == 2 {
            DecodeStatus::NotFinished
        } else if status == 3 {
            DecodeStatus::NeedsMoreInput
        } else if status == 4 {
            DecodeStatus::MaybeFinishedWithoutMark
        } else {
            DecodeStatus::NotSpecified
        }
    }

    /// Converts an SDK `ELzmaStatus` code to a [`DecodeStatus`].
    pub fn from_raw(status: u32) -> (r: DecodeStatus)
        ensures
            r == Self::spec_from_raw(status),
    {
        if status == 1 {
            DecodeStatus::FinishedWithMark
        } else if status == 2 {
            DecodeStatus::NotFinished
        } else if status == 3 {
            DecodeStatus::NeedsMoreInput
        } else if status == 4 {
            DecodeStatus::MaybeFinishedWithoutMark
        } else {
            DecodeStatus::NotSpecified
        }
    }

    /// Whether the status represents a completed stream.
    pub open spec fn spec_is_finished(self) -> bool {
        self == DecodeStatus::FinishedWithMark || self == DecodeStatus::MaybeFinishedWithoutMark
    }

    /// Returns `true` when the status represents a completed stream.
    pub fn is_finished(self) -> (r: bool)
        ensures
            r == self.spec_is_finished(),
    {
        match self {
            DecodeStatus::FinishedWithMark | DecodeStatus::MaybeFinishedWithoutMark => true,
            _ => false,
        }
    }
}

/// What one SDK decode call reported: how much input it consumed, how much output it wrote,
/// and its status.
/// The SDK's `ELzmaStatus` codes: 0 leaves the status unspecified, 1 is a stream that ended
/// on its end mark, 2 one that is not finished, 3 one that needs more input, and 4 one that
/// may have finished without a mark. A reported status means a finished stream exactly for
/// codes 1 and 4, and the known codes give distinct statuses.
pub proof fn lemma_status_codes(s: u32, t: u32)
    ensures
        DecodeStatus::spec_from_raw(s).spec_is_finished() <==> (s == 1 || s == 4),
        DecodeStatus::spec_from_raw(s) == DecodeStatus::FinishedWithMark <==> s == 1,
        DecodeStatus::spec_from_raw(s) == DecodeStatus::NotFinished <==> s == 2,
        DecodeStatus::spec_from_raw(s) == DecodeStatus::NeedsMoreInput <==> s == 3,
        DecodeStatus::spec_from_raw(s) == DecodeStatus::MaybeFinishedWithoutMark <==> s == 4,
        DecodeStatus::spec_from_raw(s) == DecodeStatus::NotSpecified <==> (s == 0 || s > 4),
        1 <= s <= 4 && DecodeStatus::spec_from_raw(s) == DecodeStatus::spec_from_raw(t) ==> s == t,
{
}

#[derive(Debug, Clone, Copy, PartialEq, Eq)]
pub struct DecodeStep {
    /// Number of bytes of input consumed.
    pub input_consumed: usize,
    /// Number of bytes of output written.
    pub output_written: usize,
    /// Status of the decode call.
    pub status: DecodeStatus,
}

} // verus!
