//! Typed `XZ` encoder options: nested `LZMA2` options, the container's integrity check, an
//! optional pre-`LZMA2` filter, and threading controls, with the SDK property record they
//! translate into.

use vstd::prelude::*;

use crate::error::Error;
use crate::lzma2::options::{sdk_default_lzma2_props, spec_raw_props, RawLzma2EncoderProps};
use crate::lzma2::Lzma2Options;

verus! {

/// `XZ` check id: no integrity check.
pub const XZ_CHECK_NO: u32 = 0;
/// `XZ` check id: CRC32.
pub const XZ_CHECK_CRC32: u32 = 1;
/// `XZ` check id: CRC64.
pub const XZ_CHECK_CRC64: u32 = 4;
/// `XZ` check id: SHA-256.
pub const XZ_CHECK_SHA256: u32 = 10;

/// `XZ` filter id of the delta filter.
pub const XZ_ID_DELTA: u32 = 3;
/// `XZ` filter id of the x86 BCJ filter.
pub const XZ_ID_X86: u32 = 4;
/// `XZ` filter id of the PowerPC BCJ filter.
pub const XZ_ID_PPC: u32 = 5;
/// `XZ` filter id of the IA-64 BCJ filter.
pub const XZ_ID_IA64: u32 = 6;
/// `XZ` filter id of the ARM BCJ filter.
pub const XZ_ID_ARM: u32 = 7;
/// `XZ` filter id of the ARM Thumb BCJ filter.
pub const XZ_ID_ARMT: u32 = 8;
/// `XZ` filter id of the SPARC BCJ filter.
pub const XZ_ID_SPARC: u32 = 9;
/// `XZ` filter id of the ARM64 BCJ filter.
pub const XZ_ID_ARM64: u32 = 10;
/// `XZ` filter id of the RISC-V BCJ filter.
pub const XZ_ID_RISCV: u32 = 11;

/// Integrity check used by the `XZ` container.
#[derive(Debug, Clone, Copy, PartialEq, Eq)]
pub enum Check {
    /// Disable integrity checks.
    NoCheck,
    /// Use CRC32 integrity checks.
    Crc32,
    /// Use CRC64 integrity checks.
    Crc64,
    /// Use SHA-256 integrity checks.
    Sha256,
}

impl Check {
    /// The container's check id for this check.
    pub open spec fn spec_raw(self) -> u32 {
        match self {
            Check::NoCheck => XZ_CHECK_NO,
            Check::Crc32 => XZ_CHECK_CRC32,
            Check::Crc64 => XZ_CHECK_CRC64,
            Check::Sha256 => XZ_CHECK_SHA256,
        }
    }

    /// Returns the container's check id for this check.
    pub fn as_raw(self) -> (r: u32)
        ensures
            r == self.spec_raw(),
    {
        match self {
            Check::NoCheck => XZ_CHECK_NO,
            Check::Crc32 => XZ_CHECK_CRC32,
            Check::Crc64 => XZ_CHECK_CRC64,
            Check::Sha256 => XZ_CHECK_SHA256,
        }
    }
}

/// The size of the integrity check the `.xz` format assigns to a check id: none for id 0,
/// then 4, 8, 16, 32 and 64 bytes for each following group of three ids.
pub open spec fn xz_check_size(id: u32) -> nat {
    if id == 0 {
        0
    } else if id <= 3 {
        4
    } else if id <= 6 {
        8
    } else if id <= 9 {
        16
    } else if id <= 12 {
        32
    } else if id <= 15 {
        64
    } else {
        0
    }
}

/// The size of the digest a check computes: nothing, a 32-bit CRC, a 64-bit CRC, or a
/// 256-bit SHA-256 digest.
pub open spec fn check_digest_size(c: Check) -> nat {
    match c {
        Check::NoCheck => 0,
        Check::Crc32 => 4,
        Check::Crc64 => 8,
        Check::Sha256 => 32,
    }
}

/// Check ids follow the `.xz` format: no check is id 0, CRC32 is 1, CRC64 is 4 and SHA-256
/// is 10; the size the format assigns to the id is the size of the check's digest, and
/// different checks never share an id.
pub proof fn lemma_check_ids(c: Check, d: Check)
    ensures
        c.spec_raw() == d.spec_raw() ==> c == d,
        xz_check_size(c.spec_raw()) == check_digest_size(c),
        c == Check::NoCheck <==> c.spec_raw() == 0,
        c == Check::Crc32 <==> c.spec_raw() == 1,
        c == Check::Crc64 <==> c.spec_raw() == 4,
        c == Check::Sha256 <==> c.spec_raw() == 10,
{
}

/// Optional pre-LZMA2 filter in the `XZ` filter chain.
#[derive(Debug, Clone, Copy, PartialEq, Eq)]
pub enum Filter {
    /// Use only the default `LZMA2` filter.
    NoFilter,
    /// Apply the delta filter before `LZMA2`.
    Delta { distance: u32 },
    /// Apply the x86 BCJ filter.
    X86,
    /// Apply the PowerPC BCJ filter.
    PowerPc,
    /// Apply the IA-64 BCJ filter.
    IA64,
    /// Apply the ARM BCJ filter.
    Arm,
    /// Apply the ARM Thumb BCJ filter.
    ArmThumb,
    /// Apply the SPARC BCJ filter.
    Sparc,
    /// Apply the ARM64 BCJ filter.
    Arm64,
    /// Apply the RISC-V BCJ filter.
    RiscV,
}

/// The SDK's `XZ` filter property record (`CXzFilterProps`), field by field.
#[allow(non_snake_case)]
#[derive(Debug, Clone, Copy, PartialEq, Eq)]
pub struct RawXzFilterProps {
    pub id: u32,
    pub delta: u32,
    pub ip: u32,
    pub ipDefined: i32,
}

/// The filter record as the SDK's `XzFilterProps_Init` leaves it: no filter.
pub open spec fn sdk_default_filter_props() -> RawXzFilterProps {
    RawXzFilterProps { id: 0, delta: 0, ip: 0, ipDefined: 0 }
}

/// The filter record that `filter` translates into.
pub open spec fn spec_filter_props(filter: Filter) -> RawXzFilterProps {
    let d = sdk_default_filter_props();
    match filter {
        Filter::NoFilter => d,
        Filter::Delta { distance } => RawXzFilterProps { id: XZ_ID_DELTA, delta: distance, ..d },
        Filter::X86 => RawXzFilterProps { id: XZ_ID_X86, ..d },
        Filter::PowerPc => RawXzFilterProps { id: XZ_ID_PPC, ..d },
        Filter::IA64 => RawXzFilterProps { id: XZ_ID_IA64, ..d },
        Filter::Arm => RawXzFilterProps { id: XZ_ID_ARM, ..d },
        Filter::ArmThumb => RawXzFilterProps { id: XZ_ID_ARMT, ..d },
        Filter::Sparc => RawXzFilterProps { id: XZ_ID_SPARC, ..d },
        Filter::Arm64 => RawXzFilterProps { id: XZ_ID_ARM64, ..d },
        Filter::RiscV => RawXzFilterProps { id: XZ_ID_RISCV, ..d },
    }
}

/// Filter ids follow the `.xz` format's filter table: delta is 3, x86 4, PowerPC 5, IA-64 6,
/// ARM 7, ARM Thumb 8, SPARC 9, ARM64 10 and RISC-V 11; no filter leaves id 0. Only the delta
/// filter carries a distance, and it carries the chosen one.
pub proof fn lemma_filter_ids(f: Filter)
    ensures
        spec_filter_props(f).id == (match f {
            Filter::NoFilter => 0u32,
            Filter::Delta { .. } => 3u32,
            Filter::X86 => 4u32,
            Filter::PowerPc => 5u32,
            Filter::IA64 => 6u32,
            Filter::Arm => 7u32,
            Filter::ArmThumb => 8u32,
            Filter::Sparc => 9u32,
            Filter::Arm64 => 10u32,
            Filter::RiscV => 11u32,
        }),
        spec_filter_props(f).delta == (match f {
            Filter::Delta { distance } => distance,
            _ => 0u32,
        }),
{
}

/// The SDK's `XZ` encoder property record (`CXzProps`), field by field.
#[allow(non_snake_case)]
#[derive(Debug, Clone, Copy, PartialEq, Eq)]
pub struct RawXzProps {
    pub lzma2Props: RawLzma2EncoderProps,
    pub filterProps: RawXzFilterProps,
    pub checkId: u32,
    pub blockSize: u64,
    pub numBlockThreads_Reduced: i32,
    pub numBlockThreads_Max: i32,
    pub numTotalThreads: i32,
    pub numThreadGroups: u32,
    pub forceWriteSizesInHeader: i32,
    pub reduceSize: u64,
}

/// The record as the SDK's `XzProps_Init` leaves it: CRC32 checks, an automatic block size,
/// thread counts and source size left for the SDK to choose, no forced header sizes, no
/// filter, and default `LZMA2` properties.
pub open spec fn sdk_default_xz_props() -> RawXzProps {
    RawXzProps {
        lzma2Props: sdk_default_lzma2_props(),
        filterProps: sdk_default_filter_props(),
        checkId: XZ_CHECK_CRC32,
        blockSize: 0,
        numBlockThreads_Reduced: -1i32,
        numBlockThreads_Max: -1i32,
        numTotalThreads: -1i32,
        numThreadGroups: 0,
        forceWriteSizesInHeader: 0,
        reduceSize: u64::MAX,
    }
}

/// Abstract contents of [`Options`].
pub struct OptionsModel {
    pub lzma2: Lzma2Options,
    pub check: Check,
    pub filter: Filter,
    pub block_size: Option<u64>,
    pub num_thread_groups: Option<u32>,
    pub num_total_threads: Option<u32>,
    pub num_block_threads_reduced: Option<u32>,
    pub num_block_threads_max: Option<u32>,
    pub force_write_sizes_in_header: bool,
    pub reduce_size: Option<u64>,
}

/// The documented defaults: default `LZMA2` options, CRC32 checks, no filter, nothing else.
pub open spec fn is_default_options(m: OptionsModel) -> bool {
    &&& crate::lzma2::options::is_default_options(m.lzma2@)
    &&& m.check == Check::Crc32
    &&& m.filter == Filter::NoFilter
    &&& m.block_size is None
    &&& m.num_thread_groups is None
    &&& m.num_total_threads is None
    &&& m.num_block_threads_reduced is None
    &&& m.num_block_threads_max is None
    &&& !m.force_write_sizes_in_header
    &&& m.reduce_size is None
}

/// The SDK property record that `m` translates into.
pub open spec fn spec_xz_raw_props(m: OptionsModel) -> RawXzProps {
    let d = sdk_default_xz_props();
    RawXzProps {
        lzma2Props: spec_raw_props(m.lzma2@),
        filterProps: spec_filter_props(m.filter),
        checkId: m.check.spec_raw(),
        blockSize: match m.block_size {
            Some(v) => v,
            None => d.blockSize,
        },
        numBlockThreads_Reduced: match m.num_block_threads_reduced {
            Some(v) => v as i32,
            None => d.numBlockThreads_Reduced,
        },
        numBlockThreads_Max: match m.num_block_threads_max {
            Some(v) => v as i32,
            None => d.numBlockThreads_Max,
        },
        numTotalThreads: match m.num_total_threads {
            Some(v) => v as i32,
            None => d.numTotalThreads,
        },
        numThreadGroups: match m.num_thread_groups {
            Some(v) => v,
            None => d.numThreadGroups,
        },
        forceWriteSizesInHeader: if m.force_write_sizes_in_header {
            1
        } else {
            d.forceWriteSizesInHeader
        },
        reduceSize: match m.reduce_size {
            Some(v) => v,
            None => d.reduceSize,
        },
    }
}

/// High-level `XZ` encoder options.
#[derive(Debug, Clone, Copy, PartialEq, Eq)]
pub struct Options {
    lzma2: Lzma2Options,
    check: Check,
    filter: Filter,
    block_size: Option<u64>,
    num_thread_groups: Option<u32>,
    num_total_threads: Option<u32>,
    num_block_threads_reduced: Option<u32>,
    num_block_threads_max: Option<u32>,
    force_write_sizes_in_header: bool,
    reduce_size: Option<u64>,
}

impl View for Options {
    type V = OptionsModel;

    closed spec fn view(&self) -> OptionsModel {
        OptionsModel {
            lzma2: self.lzma2,
            check: self.check,
            filter: self.filter,
            block_size: self.block_size,
            num_thread_groups: self.num_thread_groups,
            num_total_threads: self.num_total_threads,
            num_block_threads_reduced: self.num_block_threads_reduced,
            num_block_threads_max: self.num_block_threads_max,
            force_write_sizes_in_header: self.force_write_sizes_in_header,
            reduce_size: self.reduce_size,
        }
    }
}

/// Two options values with the same model are the same value.
pub proof fn lemma_view_injective(a: Options, b: Options)
    requires
        a@ == b@,
    ensures
        a == b,
{
}

/// Every options value with the documented defaults is the same value: the default options,
/// however they were made (`Options::default()`, `Options::builder().build()`), are equal.
pub proof fn lemma_default_options_unique(a: Options, b: Options)
    requires
        is_default_options(a@),
        is_default_options(b@),
    ensures
        a == b,
{
    crate::lzma2::options::lemma_default_options_unique(a@.lzma2, b@.lzma2);
    lemma_view_injective(a, b);
}

impl Default for Options {
    fn default() -> (r: Self)
        ensures
            is_default_options(r@),
    {
        Options {
            lzma2: Lzma2Options::default(),
            check: Check::Crc32,
            filter: Filter::NoFilter,
            block_size: None,
            num_thread_groups: None,
            num_total_threads: None,
            num_block_threads_reduced: None,
            num_block_threads_max: None,
            force_write_sizes_in_header: false,
            reduce_size: None,
        }
    }
}

impl Options {
    #[verifier::type_invariant]
    spec fn total_threads_positive(self) -> bool {
        self.num_total_threads matches Some(t) ==> t != 0
    }

    /// Creates a builder for `XZ` compression options, starting from the defaults.
    pub fn builder() -> (r: OptionsBuilder)
        ensures
            is_default_options(r.options()@),
    {
        OptionsBuilder { options: Self::default() }
    }

    /// Replaces the nested `LZMA2` options.
    pub fn with_lzma2_options(self, options: Lzma2Options) -> (r: Self)
        ensures
            r@ == (OptionsModel { lzma2: options, ..self@ }),
    {
        let mut s = self;
        proof {
            use_type_invariant(&s);
        }
        s.lzma2 = options;
        s
    }

    /// Sets the integrity check written into the container.
    pub fn with_check(self, check: Check) -> (r: Self)
        ensures
            r@ == (OptionsModel { check, ..self@ }),
    {
        let mut s = self;
        proof {
            use_type_invariant(&s);
        }
        s.check = check;
        s
    }

    /// Sets the optional pre-`LZMA2` filter.
    pub fn with_filter(self, filter: Filter) -> (r: Self)
        ensures
            r@ == (OptionsModel { filter, ..self@ }),
    {
        let mut s = self;
        proof {
            use_type_invariant(&s);
        }
        s.filter = filter;
        s
    }

    /// Sets the block size in bytes.
    pub fn with_block_size(self, block_size: u64) -> (r: Self)
        ensures
            r@ == (OptionsModel { block_size: Some(block_size), ..self@ }),
    {
        let mut s = self;
        proof {
            use_type_invariant(&s);
        }
        s.block_size = Some(block_size);
        s
    }

    /// Sets the number of thread groups.
    pub fn with_num_thread_groups(self, groups: u32) -> (r: Self)
        ensures
            r@ == (OptionsModel { num_thread_groups: Some(groups), ..self@ }),
    {
        let mut s = self;
        proof {
            use_type_invariant(&s);
        }
        s.num_thread_groups = Some(groups);
        s
    }

    /// Sets the total number of threads, which is never zero.
    pub fn with_num_total_threads(self, threads: u32) -> (r: Self)
        requires
            threads != 0,
        ensures
            r@ == (OptionsModel { num_total_threads: Some(threads), ..self@ }),
    {
        let mut s = self;
        proof {
            use_type_invariant(&s);
        }
        s.num_total_threads = Some(threads);
        s
    }

    /// Sets the reduced number of block threads.
    pub fn with_num_block_threads_reduced(self, threads: u32) -> (r: Self)
        ensures
            r@ == (OptionsModel { num_block_threads_reduced: Some(threads), ..self@ }),
    {
        let mut s = self;
        proof {
            use_type_invariant(&s);
        }
        s.num_block_threads_reduced = Some(threads);
        s
    }

    /// Sets the maximum number of block threads.
    pub fn with_num_block_threads_max(self, threads: u32) -> (r: Self)
        ensures
            r@ == (OptionsModel { num_block_threads_max: Some(threads), ..self@ }),
    {
        let mut s = self;
        proof {
            use_type_invariant(&s);
        }
        s.num_block_threads_max = Some(threads);
        s
    }

    /// Controls whether block sizes are forced into the `XZ` header.
    pub fn with_force_write_sizes_in_header(self, enabled: bool) -> (r: Self)
        ensures
            r@ == (OptionsModel { force_write_sizes_in_header: enabled, ..self@ }),
    {
        let mut s = self;
        proof {
            use_type_invariant(&s);
        }
        s.force_write_sizes_in_header = enabled;
        s
    }

    /// Hints the source size so the SDK can tune its internal settings.
    pub fn with_reduce_size(self, reduce_size: u64) -> (r: Self)
        ensures
            r@ == (OptionsModel { reduce_size: Some(reduce_size), ..self@ }),
    {
        let mut s = self;
        proof {
            use_type_invariant(&s);
        }
        s.reduce_size = Some(reduce_size);
        s
    }

    /// Returns the nested `LZMA2` options.
    pub fn lzma2(&self) -> (r: Lzma2Options)
        ensures
            r == self@.lzma2,
    {
        self.lzma2
    }

    /// Returns the integrity check.
    pub fn check(&self) -> (r: Check)
        ensures
            r == self@.check,
    {
        self.check
    }

    /// Returns the pre-`LZMA2` filter.
    pub fn filter(&self) -> (r: Filter)
        ensures
            r == self@.filter,
    {
        self.filter
    }

    /// Returns the block size, if set.
    pub fn block_size(&self) -> (r: Option<u64>)
        ensures
            r == self@.block_size,
    {
        self.block_size
    }

    /// Returns the number of thread groups, if set.
    pub fn num_thread_groups(&self) -> (r: Option<u32>)
        ensures
            r == self@.num_thread_groups,
    {
        self.num_thread_groups
    }

    /// Returns the total number of threads, if set.
    pub fn num_total_threads(&self) -> (r: Option<u32>)
        ensures
            r == self@.num_total_threads,
    {
        self.num_total_threads
    }

    /// Returns the reduced number of block threads, if set.
    pub fn num_block_threads_reduced(&self) -> (r: Option<u32>)
        ensures
            r == self@.num_block_threads_reduced,
    {
        self.num_block_threads_reduced
    }

    /// Returns the maximum number of block threads, if set.
    pub fn num_block_threads_max(&self) -> (r: Option<u32>)
        ensures
            r == self@.num_block_threads_max,
    {
        self.num_block_threads_max
    }

    /// Returns whether block sizes are forced into the header.
    pub fn force_write_sizes_in_header(&self) -> (r: bool)
        ensures
            r == self@.force_write_sizes_in_header,
    {
        self.force_write_sizes_in_header
    }

    /// Returns the source size hint, if set.
    pub fn reduce_size(&self) -> (r: Option<u64>)
        ensures
            r == self@.reduce_size,
    {
        self.reduce_size
    }

    /// Converts these options into the SDK's `XZ` encoder property record. Every option is
    /// supported by the modelled SDK, so the conversion always succeeds.
    pub fn to_raw_props(&self) -> (r: Result<RawXzProps, Error>)
        ensures
            r == Ok::<RawXzProps, Error>(spec_xz_raw_props(self@)),
    {
        let mut props = RawXzProps {
            lzma2Props: self.lzma2.to_raw_props(),
            filterProps: RawXzFilterProps { id: 0, delta: 0, ip: 0, ipDefined: 0 },
            checkId: self.check.as_raw(),
            blockSize: 0,
            numBlockThreads_Reduced: -1,
            numBlockThreads_Max: -1,
            numTotalThreads: -1,
            numThreadGroups: 0,
            forceWriteSizesInHeader: 0,
            reduceSize: u64::MAX,
        };
        if let Some(block_size) = self.block_size {
            props.blockSize = block_size;
        }
        if let Some(groups) = self.num_thread_groups {
            props.numThreadGroups = groups;
        }
        if let Some(threads) = self.num_total_threads {
            props.numTotalThreads = threads as i32;
        }
        if let Some(threads) = self.num_block_threads_reduced {
            props.numBlockThreads_Reduced = threads as i32;
        }
        if let Some(threads) = self.num_block_threads_max {
            props.numBlockThreads_Max = threads as i32;
        }
        if self.force_write_sizes_in_header {
            props.forceWriteSizesInHeader = 1;
        }
        if let Some(reduce_size) = self.reduce_size {
            props.reduceSize = reduce_size;
        }
        match self.filter {
            Filter::NoFilter => {},
            Filter::Delta { distance } => {
                props.filterProps.id = XZ_ID_DELTA;
                props.filterProps.delta = distance;
            },
            Filter::X86 => props.filterProps.id = XZ_ID_X86,
            Filter::PowerPc => props.filterProps.id = XZ_ID_PPC,
            Filter::IA64 => props.filterProps.id = XZ_ID_IA64,
            Filter::Arm => props.filterProps.id = XZ_ID_ARM,
            Filter::ArmThumb => props.filterProps.id = XZ_ID_ARMT,
            Filter::Sparc => props.filterProps.id = XZ_ID_SPARC,
            Filter::Arm64 => props.filterProps.id = XZ_ID_ARM64,
            Filter::RiscV => props.filterProps.id = XZ_ID_RISCV,
        }
        Ok(props)
    }
}

/// Builder for [`Options`].
pub struct OptionsBuilder {
    options: Options,
}

impl OptionsBuilder {
    /// The options built so far.
    pub closed spec fn options(self) -> Options {
        self.options
    }

    /// Replaces the nested `LZMA2` options.
    pub fn lzma2_options(self, options: Lzma2Options) -> (r: Self)
        ensures
            r.options()@ == (OptionsModel { lzma2: options, ..self.options()@ }),
    {
        OptionsBuilder { options: self.options.with_lzma2_options(options) }
    }

    /// Sets the integrity check written into the container.
    pub fn check(self, check: Check) -> (r: Self)
        ensures
            r.options()@ == (OptionsModel { check, ..self.options()@ }),
    {
        OptionsBuilder { options: self.options.with_check(check) }
    }

    /// Sets the optional pre-`LZMA2` filter.
    pub fn filter(self, filter: Filter) -> (r: Self)
        ensures
            r.options()@ == (OptionsModel { filter, ..self.options()@ }),
    {
        OptionsBuilder { options: self.options.with_filter(filter) }
    }

    /// Sets the block size in bytes.
    pub fn block_size(self, block_size: u64) -> (r: Self)
        ensures
            r.options()@ == (OptionsModel { block_size: Some(block_size), ..self.options()@ }),
    {
        OptionsBuilder { options: self.options.with_block_size(block_size) }
    }

    /// Sets the number of thread groups.
    pub fn num_thread_groups(self, groups: u32) -> (r: Self)
        ensures
            r.options()@ == (OptionsModel { num_thread_groups: Some(groups), ..self.options()@ }),
    {
        OptionsBuilder { options: self.options.with_num_thread_groups(groups) }
    }

    /// Sets the total number of threads, which is never zero.
    pub fn num_total_threads(self, threads: u32) -> (r: Self)
        requires
            threads != 0,
        ensures
            r.options()@ == (OptionsModel { num_total_threads: Some(threads), ..self.options()@ }),
    {
        OptionsBuilder { options: self.options.with_num_total_threads(threads) }
    }

    /// Sets the reduced number of block threads.
    pub fn num_block_threads_reduced(self, threads: u32) -> (r: Self)
        ensures
            r.options()@ == (OptionsModel {
                num_block_threads_reduced: Some(threads),
                ..self.options()@
            }),
    {
        OptionsBuilder { options: self.options.with_num_block_threads_reduced(threads) }
    }

    /// Sets the maximum number of block threads.
    pub fn num_block_threads_max(self, threads: u32) -> (r: Self)
        ensures
            r.options()@ == (OptionsModel { num_block_threads_max: Some(threads), ..self.options()@ }),
    {
        OptionsBuilder { options: self.options.with_num_block_threads_max(threads) }
    }

    /// Controls whether block sizes are forced into the `XZ` header.
    pub fn force_write_sizes_in_header(self, enabled: bool) -> (r: Self)
        ensures
            r.options()@ == (OptionsModel { force_write_sizes_in_header: enabled, ..self.options()@ }),
    {
        OptionsBuilder { options: self.options.with_force_write_sizes_in_header(enabled) }
    }

    /// Hints the source size so the SDK can tune its internal settings.
    pub fn reduce_size(self, reduce_size: u64) -> (r: Self)
        ensures
            r.options()@ == (OptionsModel { reduce_size: Some(reduce_size), ..self.options()@ }),
    {
        OptionsBuilder { options: self.options.with_reduce_size(reduce_size) }
    }

    /// Returns the fully configured `XZ` options value.
    pub fn build(self) -> (r: Options)
        ensures
            r == self.options(),
            r@ == self.options()@,
    {
        self.options
    }
}

} // verus!
