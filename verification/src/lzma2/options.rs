//! Typed `LZMA2` encoder options, their builder, and the SDK property record they translate
//! into.

use vstd::prelude::*;

use crate::error::{invalid_option, is_invalid_option, Error};
use crate::lzma::options::{sdk_default_encoder_props, spec_raw_encoder_props, RawEncoderProps};
use crate::lzma::LzmaOptions;

verus! {

/// Minimum total thread count accepted by the wrapper.
pub const MIN_NUM_TOTAL_THREADS: u32 = 1;
/// Default total thread count used by the wrapper.
pub const DEFAULT_NUM_TOTAL_THREADS: u32 = 1;

/// The SDK's `LZMA2` encoder property record (`CLzma2EncProps`), field by field.
#[allow(non_snake_case)]
#[derive(Debug, Clone, Copy, PartialEq, Eq)]
pub struct RawLzma2EncoderProps {
    pub lzmaProps: RawEncoderProps,
    pub blockSize: u64,
    pub numBlockThreads_Reduced: i32,
    pub numBlockThreads_Max: i32,
    pub numTotalThreads: i32,
    pub numThreadGroups: u32,
}

/// The record as the SDK's `Lzma2EncProps_Init` leaves it: default `LZMA` properties, an
/// automatic block size (0), and thread counts left for the SDK to choose.
pub open spec fn sdk_default_lzma2_props() -> RawLzma2EncoderProps {
    RawLzma2EncoderProps {
        lzmaProps: sdk_default_encoder_props(),
        blockSize: 0,
        numBlockThreads_Reduced: -1i32,
        numBlockThreads_Max: -1i32,
        numTotalThreads: -1i32,
        numThreadGroups: 0,
    }
}

/// Abstract contents of [`Options`].
pub struct OptionsModel {
    pub lzma: LzmaOptions,
    pub block_size: Option<u64>,
    pub num_block_threads_reduced: Option<u32>,
    pub num_block_threads_max: Option<u32>,
    pub num_total_threads: u32,
    pub num_thread_groups: Option<u32>,
}

/// The documented defaults: default raw `LZMA` options, one thread, nothing else set.
pub open spec fn is_default_options(m: OptionsModel) -> bool {
    &&& crate::lzma::options::is_default_options(m.lzma@)
    &&& m.block_size is None
    &&& m.num_block_threads_reduced is None
    &&& m.num_block_threads_max is None
    &&& m.num_total_threads == DEFAULT_NUM_TOTAL_THREADS
    &&& m.num_thread_groups is None
}

/// The SDK property record that `m` translates into.
pub open spec fn spec_raw_props(m: OptionsModel) -> RawLzma2EncoderProps {
    let d = sdk_default_lzma2_props();
    RawLzma2EncoderProps {
        lzmaProps: spec_raw_encoder_props(m.lzma@),
        blockSize: match m.block_size {
            Some(v) => v,
            None => d.blockSize,
        },
        numBlockThreads_Reduced: match m.num_block_threads_reduced {
            Some(v) => v as i32,
            None => d.numBlockThreads_Reduced,
        },
        numBlockThreads_Max: match m.num_block_threads_max {
            Some(v) => v as i32,
            None => d.numBlockThreads_Max,
        },
        numTotalThreads: m.num_total_threads as i32,
        numThreadGroups: match m.num_thread_groups {
            Some(v) => v,
            None => d.numThreadGroups,
        },
    }
}

/// High-level `LZMA2` compression options.
#[derive(Debug, Clone, Copy, PartialEq, Eq)]
pub struct Options {
    lzma: LzmaOptions,
    block_size: Option<u64>,
    num_block_threads_reduced: Option<u32>,
    num_block_threads_max: Option<u32>,
    num_total_threads: u32,
    num_thread_groups: Option<u32>,
}

impl View for Options {
    type V = OptionsModel;

    closed spec fn view(&self) -> OptionsModel {
        OptionsModel {
            lzma: self.lzma,
            block_size: self.block_size,
            num_block_threads_reduced: self.num_block_threads_reduced,
            num_block_threads_max: self.num_block_threads_max,
            num_total_threads: self.num_total_threads,
            num_thread_groups: self.num_thread_groups,
        }
    }
}

/// Two options values with the same model are the same value.
pub proof fn lemma_view_injective(a: Options, b: Options)
    requires
        a@ == b@,
    ensures
        a == b,
{
}

/// Every options value with the documented defaults is the same value: the default options,
/// however they were made (`Options::default()`, `Options::builder().build()`), are equal.
pub proof fn lemma_default_options_unique(a: Options, b: Options)
    requires
        is_default_options(a@),
        is_default_options(b@),
    ensures
        a == b,
{
    crate::lzma::options::lemma_default_options_unique(a@.lzma, b@.lzma);
    lemma_view_injective(a, b);
}

impl Default for Options {
    fn default() -> (r: Self)
        ensures
            is_default_options(r@),
    {
        Options {
            lzma: LzmaOptions::default(),
            block_size: None,
            num_block_threads_reduced: None,
            num_block_threads_max: None,
            num_total_threads: DEFAULT_NUM_TOTAL_THREADS,
            num_thread_groups: None,
        }
    }
}

impl Options {
    #[verifier::type_invariant]
    spec fn has_a_thread(self) -> bool {
        self.num_total_threads >= MIN_NUM_TOTAL_THREADS
    }

    /// Minimum total thread count accepted by the wrapper.
    #[allow(non_snake_case)]
    pub fn MIN_NUM_TOTAL_THREADS() -> (r: u32)
        ensures
            r == MIN_NUM_TOTAL_THREADS,
    {
        MIN_NUM_TOTAL_THREADS
    }

    /// Default total thread count used by the wrapper.
    #[allow(non_snake_case)]
    pub fn DEFAULT_NUM_TOTAL_THREADS() -> (r: u32)
        ensures
            r == DEFAULT_NUM_TOTAL_THREADS,
    {
        DEFAULT_NUM_TOTAL_THREADS
    }

    /// Creates a builder for `LZMA2` compression options, starting from the defaults.
    pub fn builder() -> (r: OptionsBuilder)
        ensures
            is_default_options(r.options()@),
    {
        OptionsBuilder { options: Self::default() }
    }

    /// Replaces the nested raw `LZMA` options.
    pub fn lzma_options(self, lzma: LzmaOptions) -> (r: Self)
        ensures
            r@ == (OptionsModel { lzma, ..self@ }),
    {
        let mut s = self;
        proof {
            use_type_invariant(&s);
        }
        s.lzma = lzma;
        s
    }

    /// Replaces the nested raw `LZMA` options.
    pub fn with_lzma_options(self, lzma: LzmaOptions) -> (r: Self)
        ensures
            r@ == (OptionsModel { lzma, ..self@ }),
    {
        self.lzma_options(lzma)
    }

    /// Sets the block size in bytes.
    pub fn with_block_size(self, block_size: u64) -> (r: Self)
        ensures
            r@ == (OptionsModel { block_size: Some(block_size), ..self@ }),
    {
        let mut s = self;
        proof {
            use_type_invariant(&s);
        }
        s.block_size = Some(block_size);
        s
    }

    /// Sets the reduced number of block threads.
    pub fn with_num_block_threads_reduced(self, value: u32) -> (r: Self)
        ensures
            r@ == (OptionsModel { num_block_threads_reduced: Some(value), ..self@ }),
    {
        let mut s = self;
        proof {
            use_type_invariant(&s);
        }
        s.num_block_threads_reduced = Some(value);
        s
    }

    /// Sets the maximum number of block threads.
    pub fn with_num_block_threads_max(self, value: u32) -> (r: Self)
        ensures
            r@ == (OptionsModel { num_block_threads_max: Some(value), ..self@ }),
    {
        let mut s = self;
        proof {
            use_type_invariant(&s);
        }
        s.num_block_threads_max = Some(value);
        s
    }

    /// Sets the total number of threads; zero is rejected.
    pub fn with_num_total_threads(self, value: u32) -> (r: Result<Self, Error>)
        ensures
            r is Ok <==> value >= MIN_NUM_TOTAL_THREADS,
            r matches Ok(o) ==> o@ == (OptionsModel { num_total_threads: value, ..self@ }),
            r matches Err(e) ==> is_invalid_option(e, "num_total_threads"@, "expected a positive value"@),
    {
        if value < MIN_NUM_TOTAL_THREADS {
            return Err(
                invalid_option(
                    String::from_str("num_total_threads"),
                    String::from_str("expected a positive value"),
                ),
            );
        }
        let mut s = self;
        proof {
            use_type_invariant(&s);
        }
        s.num_total_threads = value;
        Ok(s)
    }

    /// Sets the number of thread groups.
    pub fn with_num_thread_groups(self, value: u32) -> (r: Self)
        ensures
            r@ == (OptionsModel { num_thread_groups: Some(value), ..self@ }),
    {
        let mut s = self;
        proof {
            use_type_invariant(&s);
        }
        s.num_thread_groups = Some(value);
        s
    }

    /// Returns the nested raw `LZMA` options.
    pub fn lzma(&self) -> (r: LzmaOptions)
        ensures
            r == self@.lzma,
    {
        self.lzma
    }

    /// Returns the block size, if set.
    pub fn block_size(&self) -> (r: Option<u64>)
        ensures
            r == self@.block_size,
    {
        self.block_size
    }

    /// Returns the reduced number of block threads, if set.
    pub fn num_block_threads_reduced(&self) -> (r: Option<u32>)
        ensures
            r == self@.num_block_threads_reduced,
    {
        self.num_block_threads_reduced
    }

    /// Returns the maximum number of block threads, if set.
    pub fn num_block_threads_max(&self) -> (r: Option<u32>)
        ensures
            r == self@.num_block_threads_max,
    {
        self.num_block_threads_max
    }

    /// Returns the total number of threads.
    pub fn num_total_threads(&self) -> (r: u32)
        ensures
            r == self@.num_total_threads,
            r >= MIN_NUM_TOTAL_THREADS,
    {
        proof {
            use_type_invariant(self);
        }
        self.num_total_threads
    }

    /// Returns the number of thread groups, if set.
    pub fn num_thread_groups(&self) -> (r: Option<u32>)
        ensures
            r == self@.num_thread_groups,
    {
        self.num_thread_groups
    }

    /// Converts these options into the SDK's `LZMA2` encoder property record.
    pub fn to_raw_props(&self) -> (r: RawLzma2EncoderProps)
        ensures
            r == spec_raw_props(self@),
    {
        let lzma_props = self.lzma.to_raw_encoder_props();
        let mut props = RawLzma2EncoderProps {
            lzmaProps: lzma_props,
            blockSize: 0,
            numBlockThreads_Reduced: -1,
            numBlockThreads_Max: -1,
            numTotalThreads: -1,
            numThreadGroups: 0,
        };
        if let Some(block_size) = self.block_size {
            props.blockSize = block_size;
        }
        if let Some(num_block_threads_reduced) = self.num_block_threads_reduced {
            props.numBlockThreads_Reduced = num_block_threads_reduced as i32;
        }
        if let Some(num_block_threads_max) = self.num_block_threads_max {
            props.numBlockThreads_Max = num_block_threads_max as i32;
        }
        props.numTotalThreads = self.num_total_threads as i32;
        if let Some(num_thread_groups) = self.num_thread_groups {
            props.numThreadGroups = num_thread_groups;
        }
        props
    }
}

/// Builder for [`Options`].
pub struct OptionsBuilder {
    options: Options,
}

impl OptionsBuilder {
    /// The options built so far.
    pub closed spec fn options(self) -> Options {
        self.options
    }

    /// Replaces the nested raw `LZMA` options.
    pub fn lzma_options(self, options: LzmaOptions) -> (r: Self)
        ensures
            r.options()@ == (OptionsModel { lzma: options, ..self.options()@ }),
    {
        OptionsBuilder { options: self.options.lzma_options(options) }
    }

    /// Sets the block size in bytes.
    pub fn block_size(self, block_size: u64) -> (r: Self)
        ensures
            r.options()@ == (OptionsModel { block_size: Some(block_size), ..self.options()@ }),
    {
        OptionsBuilder { options: self.options.with_block_size(block_size) }
    }

    /// Sets the reduced number of block threads.
    pub fn num_block_threads_reduced(self, value: u32) -> (r: Self)
        ensures
            r.options()@ == (OptionsModel {
                num_block_threads_reduced: Some(value),
                ..self.options()@
            }),
    {
        OptionsBuilder { options: self.options.with_num_block_threads_reduced(value) }
    }

    /// Sets the maximum number of block threads.
    pub fn num_block_threads_max(self, value: u32) -> (r: Self)
        ensures
            r.options()@ == (OptionsModel { num_block_threads_max: Some(value), ..self.options()@ }),
    {
        OptionsBuilder { options: self.options.with_num_block_threads_max(value) }
    }

    /// Sets the total number of threads; zero is rejected.
    pub fn num_total_threads(self, value: u32) -> (r: Result<Self, Error>)
        ensures
            r is Ok <==> value >= MIN_NUM_TOTAL_THREADS,
            r matches Ok(b) ==> b.options()@ == (OptionsModel {
                num_total_threads: value,
                ..self.options()@
            }),
            r matches Err(e) ==> is_invalid_option(e, "num_total_threads"@, "expected a positive value"@),
    {
        match self.options.with_num_total_threads(value) {
            Ok(options) => Ok(OptionsBuilder { options }),
            Err(e) => Err(e),
        }
    }

    /// Sets the number of thread groups.
    pub fn num_thread_groups(self, value: u32) -> (r: Self)
        ensures
            r.options()@ == (OptionsModel { num_thread_groups: Some(value), ..self.options()@ }),
    {
        OptionsBuilder { options: self.options.with_num_thread_groups(value) }
    }

    /// Builds the configured `LZMA2` options value.
    pub fn build(self) -> (r: Options)
        ensures
            r == self.options(),
            r@ == self.options()@,
    {
        self.options
    }
}

} // verus!
