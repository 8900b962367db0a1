//! Typed high-level raw `LZMA` encoder options, their builder, and the SDK property record
//! they translate into.

use vstd::prelude::*;

use crate::error::{invalid_option, is_invalid_option, Error};

pub mod fb;
pub mod lc;
pub mod level;
pub mod lp;
pub mod pb;

pub use fb::FastBytes;
pub use lc::LiteralContextBits;
pub use level::CompressionLevel;
pub use lp::LiteralPosBits;
pub use pb::PosBits;

verus! {

/// Minimum dictionary size supported by the encoder.
pub const MIN_DICT_SIZE: u32 = 4096;

/// Encoder algorithm selection.
#[derive(Debug, Clone, Copy, PartialEq, Eq)]
pub enum Algorithm {
    /// Favor encoding speed over ratio.
    Fast,
    /// Favor compression ratio over speed.
    Normal,
}

impl Algorithm {
    /// The SDK's numeric code for this algorithm.
    pub open spec fn spec_raw(self) -> i32 {
        match self {
            Algorithm::Fast => 0,
            Algorithm::Normal => 1,
        }
    }

    /// Returns the SDK's numeric code for this algorithm (`algo`).
    pub fn raw(self) -> (r: i32)
        ensures
            r == self.spec_raw(),
    {
        match self {
            Algorithm::Fast => 0,
            Algorithm::Normal => 1,
        }
    }
}

/// Match finder strategy used by the encoder.
#[derive(Debug, Clone, Copy, PartialEq, Eq)]
pub enum MatchFinderMode {
    /// Use a hash-chain match finder.
    HashChain,
    /// Use a binary-tree match finder.
    BinaryTree,
}

impl MatchFinderMode {
    /// The SDK's numeric code for this match finder.
    pub open spec fn spec_raw(self) -> i32 {
        match self {
            MatchFinderMode::HashChain => 0,
            MatchFinderMode::BinaryTree => 1,
        }
    }

    /// Returns the SDK's numeric code for this match finder (`btMode`).
    pub fn raw(self) -> (r: i32)
        ensures
            r == self.spec_raw(),
    {
        match self {
            MatchFinderMode::HashChain => 0,
            MatchFinderMode::BinaryTree => 1,
        }
    }
}

/// Number of hash bytes used by the match finder.
#[derive(Debug, Clone, Copy, PartialEq, Eq)]
pub enum HashBytes {
    /// Use two hash bytes.
    Two,
    /// Use three hash bytes.
    Three,
    /// Use four hash bytes.
    Four,
}

impl HashBytes {
    /// The number of hash bytes.
    pub open spec fn spec_raw(self) -> i32 {
        match self {
            HashBytes::Two => 2,
            HashBytes::Three => 3,
            HashBytes::Four => 4,
        }
    }

    /// Returns the number of hash bytes (`numHashBytes`).
    pub fn raw(self) -> (r: i32)
        ensures
            r == self.spec_raw(),
    {
        match self {
            HashBytes::Two => 2,
            HashBytes::Three => 3,
            HashBytes::Four => 4,
        }
    }
}

/// Controls whether an end marker is written into the stream.
#[derive(Debug, Clone, Copy, PartialEq, Eq)]
pub enum EndMarkerMode {
    /// Omit the end marker from the encoded stream.
    Disabled,
    /// Append an end marker to the encoded stream.
    Enabled,
}

impl EndMarkerMode {
    /// The SDK's flag value for this mode.
    pub open spec fn spec_raw(self) -> u32 {
        match self {
            EndMarkerMode::Disabled => 0,
            EndMarkerMode::Enabled => 1,
        }
    }

    /// Returns the SDK's flag value for this mode (`writeEndMark`).
    pub fn raw(self) -> (r: u32)
        ensures
            r == self.spec_raw(),
    {
        match self {
            EndMarkerMode::Disabled => 0,
            EndMarkerMode::Enabled => 1,
        }
    }
}

/// The SDK's raw `LZMA` encoder property record (`CLzmaEncProps`), field by field.
#[allow(non_snake_case)]
#[derive(Debug, Clone, Copy, PartialEq, Eq)]
pub struct RawEncoderProps {
    pub level: i32,
    pub dictSize: u32,
    pub lc: i32,
    pub lp: i32,
    pub pb: i32,
    pub algo: i32,
    pub fb: i32,
    pub btMode: i32,
    pub numHashBytes: i32,
    pub numHashOutBits: u32,
    pub mc: u32,
    pub writeEndMark: u32,
    pub numThreads: i32,
    pub affinityGroup: i32,
    pub reduceSize: u64,
    pub affinity: u64,
    pub affinityInGroup: u64,
}

/// The record as the SDK's `LzmaEncProps_Init` leaves it: level 5, every size and mode left
/// for the SDK to choose (`-1` or `0`), no end marker, an unknown source size.
pub open spec fn sdk_default_encoder_props() -> RawEncoderProps {
    RawEncoderProps {
        level: 5,
        dictSize: 0,
        lc: -1i32,
        lp: -1i32,
        pb: -1i32,
        algo: -1i32,
        fb: -1i32,
        btMode: -1i32,
        numHashBytes: -1i32,
        numHashOutBits: 0,
        mc: 0,
        writeEndMark: 0,
        numThreads: -1i32,
        affinityGroup: -1i32,
        reduceSize: u64::MAX,
        affinity: 0,
        affinityInGroup: 0,
    }
}

/// Returns the record as the SDK's `LzmaEncProps_Init` leaves it.
pub fn default_encoder_props() -> (r: RawEncoderProps)
    ensures
        r == sdk_default_encoder_props(),
{
    RawEncoderProps {
        level: 5,
        dictSize: 0,
        lc: -1,
        lp: -1,
        pb: -1,
        algo: -1,
        fb: -1,
        btMode: -1,
        numHashBytes: -1,
        numHashOutBits: 0,
        mc: 0,
        writeEndMark: 0,
        numThreads: -1,
        affinityGroup: -1,
        reduceSize: u64::MAX,
        affinity: 0,
        affinityInGroup: 0,
    }
}

/// Abstract contents of [`Options`].
pub struct OptionsModel {
    pub level: CompressionLevel,
    pub dict_size: Option<u32>,
    pub lc: LiteralContextBits,
    pub lp: LiteralPosBits,
    pub pb: PosBits,
    pub algorithm: Algorithm,
    pub fast_bytes: FastBytes,
    pub match_finder: MatchFinderMode,
    pub hash_bytes: HashBytes,
    pub hash_out_bits: Option<u32>,
    pub match_cycles: Option<u32>,
    pub end_marker: EndMarkerMode,
    pub num_threads: u32,
    pub reduce_size: Option<u64>,
    pub affinity_group: Option<i32>,
    pub affinity: Option<u64>,
    pub affinity_in_group: Option<u64>,
}

/// Minimum number of encoder threads supported by the encoder.
pub const MIN_NUM_THREADS: u32 = 1;
/// Maximum number of encoder threads supported by the encoder.
pub const MAX_NUM_THREADS: u32 = 2;
/// Default number of encoder threads used by the safe wrapper.
pub const DEFAULT_NUM_THREADS: u32 = 1;

/// High-level raw `LZMA` compression options.
#[derive(Debug, Clone, Copy, PartialEq, Eq)]
pub struct Options {
    level: CompressionLevel,
    dict_size: Option<u32>,
    lc: LiteralContextBits,
    lp: LiteralPosBits,
    pb: PosBits,
    algorithm: Algorithm,
    fast_bytes: FastBytes,
    match_finder: MatchFinderMode,
    hash_bytes: HashBytes,
    hash_out_bits: Option<u32>,
    match_cycles: Option<u32>,
    end_marker: EndMarkerMode,
    num_threads: u32,
    reduce_size: Option<u64>,
    affinity_group: Option<i32>,
    affinity: Option<u64>,
    affinity_in_group: Option<u64>,
}

impl View for Options {
    type V = OptionsModel;

    closed spec fn view(&self) -> OptionsModel {
        OptionsModel {
            level: self.level,
            dict_size: self.dict_size,
            lc: self.lc,
            lp: self.lp,
            pb: self.pb,
            algorithm: self.algorithm,
            fast_bytes: self.fast_bytes,
            match_finder: self.match_finder,
            hash_bytes: self.hash_bytes,
            hash_out_bits: self.hash_out_bits,
            match_cycles: self.match_cycles,
            end_marker: self.end_marker,
            num_threads: self.num_threads,
            reduce_size: self.reduce_size,
            affinity_group: self.affinity_group,
            affinity: self.affinity,
            affinity_in_group: self.affinity_in_group,
        }
    }
}

/// The documented defaults: level 5, `lc = 3`, `lp = 0`, `pb = 2`, the normal algorithm,
/// 32 fast bytes, a binary-tree match finder with four hash bytes, no end marker, one thread,
/// and every optional tuning value unset.
pub open spec fn is_default_options(m: OptionsModel) -> bool {
    &&& m.level.value() == level::DEFAULT_COMPRESSION_LEVEL
    &&& m.dict_size is None
    &&& m.lc.value() == lc::DEFAULT_LITERAL_CONTEXT_BITS
    &&& m.lp.value() == lp::DEFAULT_LITERAL_POSITION_BITS
    &&& m.pb.value() == pb::DEFAULT_POSITION_BITS
    &&& m.algorithm == Algorithm::Normal
    &&& m.fast_bytes.value() == fb::DEFAULT_FAST_BYTES
    &&& m.match_finder == MatchFinderMode::BinaryTree
    &&& m.hash_bytes == HashBytes::Four
    &&& m.hash_out_bits is None
    &&& m.match_cycles is None
    &&& m.end_marker == EndMarkerMode::Disabled
    &&& m.num_threads == DEFAULT_NUM_THREADS
    &&& m.reduce_size is None
    &&& m.affinity_group is None
    &&& m.affinity is None
    &&& m.affinity_in_group is None
}

/// Two options values with the same model are the same value.
pub proof fn lemma_view_injective(a: Options, b: Options)
    requires
        a@ == b@,
    ensures
        a == b,
{
}

/// Every options value with the documented defaults is the same value: the default options,
/// however they were made (`Options::default()`, `Options::builder().build()`), are equal.
pub proof fn lemma_default_options_unique(a: Options, b: Options)
    requires
        is_default_options(a@),
        is_default_options(b@),
    ensures
        a == b,
{
    CompressionLevel::lemma_value_injective(a@.level, b@.level);
    LiteralContextBits::lemma_value_injective(a@.lc, b@.lc);
    LiteralPosBits::lemma_value_injective(a@.lp, b@.lp);
    PosBits::lemma_value_injective(a@.pb, b@.pb);
    FastBytes::lemma_value_injective(a@.fast_bytes, b@.fast_bytes);
    lemma_view_injective(a, b);
}

impl Default for Options {
    fn default() -> (r: Self)
        ensures
            is_default_options(r@),
    {
        Options {
            level: CompressionLevel::DEFAULT(),
            dict_size: None,
            lc: LiteralContextBits::DEFAULT(),
            lp: LiteralPosBits::DEFAULT(),
            pb: PosBits::DEFAULT(),
            algorithm: Algorithm::Normal,
            fast_bytes: FastBytes::DEFAULT(),
            match_finder: MatchFinderMode::BinaryTree,
            hash_bytes: HashBytes::Four,
            hash_out_bits: None,
            match_cycles: None,
            end_marker: EndMarkerMode::Disabled,
            num_threads: DEFAULT_NUM_THREADS,
            reduce_size: None,
            affinity_group: None,
            affinity: None,
            affinity_in_group: None,
        }
    }
}

/// The SDK's codes for the encoder's modes: `algo` is 0 for the fast and 1 for the normal
/// algorithm; `btMode` is 0 for a hash-chain and 1 for a binary-tree match finder;
/// `writeEndMark` is 1 exactly when an end marker is written; `numHashBytes` is the number of
/// hash bytes, 2 to 4, growing with the variant. Distinct choices never share a code.
pub proof fn lemma_mode_codes(
    a: Algorithm,
    a2: Algorithm,
    m: MatchFinderMode,
    m2: MatchFinderMode,
    h: HashBytes,
    h2: HashBytes,
    e: EndMarkerMode,
    e2: EndMarkerMode,
)
    ensures
        a.spec_raw() == 0 <==> a == Algorithm::Fast,
        a.spec_raw() == 1 <==> a == Algorithm::Normal,
        a.spec_raw() == a2.spec_raw() ==> a == a2,
        m.spec_raw() == 0 <==> m == MatchFinderMode::HashChain,
        m.spec_raw() == 1 <==> m == MatchFinderMode::BinaryTree,
        m.spec_raw() == m2.spec_raw() ==> m == m2,
        2 <= h.spec_raw() <= 4,
        HashBytes::Two.spec_raw() < HashBytes::Three.spec_raw() < HashBytes::Four.spec_raw(),
        h.spec_raw() == h2.spec_raw() ==> h == h2,
        e.spec_raw() == 1 <==> e == EndMarkerMode::Enabled,
        e.spec_raw() == 0 <==> e == EndMarkerMode::Disabled,
        e.spec_raw() == e2.spec_raw() ==> e == e2,
{
}

/// The property record carries the user's choices: its `btMode` is 1 exactly when a
/// binary-tree match finder was chosen (0 for hash chains), its `algo` is 1 exactly for the
/// normal algorithm, its `writeEndMark` is 1 exactly when an end marker was asked for, and
/// its `numHashBytes` is the chosen number of hash bytes.
pub proof fn lemma_raw_props_carry_modes(m: OptionsModel)
    ensures
        spec_raw_encoder_props(m).btMode == (if m.match_finder == MatchFinderMode::BinaryTree {
            1i32
        } else {
            0i32
        }),
        spec_raw_encoder_props(m).algo == (if m.algorithm == Algorithm::Normal {
            1i32
        } else {
            0i32
        }),
        spec_raw_encoder_props(m).writeEndMark == (if m.end_marker == EndMarkerMode::Enabled {
            1u32
        } else {
            0u32
        }),
        spec_raw_encoder_props(m).numHashBytes == (match m.hash_bytes {
            HashBytes::Two => 2i32,
            HashBytes::Three => 3i32,
            HashBytes::Four => 4i32,
        }),
{
}

/// The SDK property record that `m` translates into: the SDK defaults, with every value
/// the options carry written over them.
pub open spec fn spec_raw_encoder_props(m: OptionsModel) -> RawEncoderProps {
    let d = sdk_default_encoder_props();
    RawEncoderProps {
        level: m.level.value() as i32,
        dictSize: match m.dict_size {
            Some(v) => v,
            None => d.dictSize,
        },
        lc: m.lc.value() as i32,
        lp: m.lp.value() as i32,
        pb: m.pb.value() as i32,
        algo: m.algorithm.spec_raw(),
        fb: m.fast_bytes.value() as i32,
        btMode: m.match_finder.spec_raw(),
        numHashBytes: m.hash_bytes.spec_raw(),
        numHashOutBits: match m.hash_out_bits {
            Some(v) => v,
            None => d.numHashOutBits,
        },
        mc: match m.match_cycles {
            Some(v) => v,
            None => d.mc,
        },
        writeEndMark: m.end_marker.spec_raw(),
        numThreads: m.num_threads as i32,
        affinityGroup: match m.affinity_group {
            Some(v) => v,
            None => d.affinityGroup,
        },
        reduceSize: match m.reduce_size {
            Some(v) => v,
            None => d.reduceSize,
        },
        affinity: match m.affinity {
            Some(v) => v,
            None => d.affinity,
        },
        affinityInGroup: match m.affinity_in_group {
            Some(v) => v,
            None => d.affinityInGroup,
        },
    }
}

impl Options {
    #[verifier::type_invariant]
    spec fn threads_in_range(self) -> bool {
        &&& MIN_NUM_THREADS <= self.num_threads <= MAX_NUM_THREADS
        &&& self.dict_size matches Some(d) ==> d >= MIN_DICT_SIZE
        &&& self.match_cycles matches Some(c) ==> c != 0
    }

    /// Minimum number of encoder threads supported by the encoder.
    #[allow(non_snake_case)]
    pub fn MIN_NUM_THREADS() -> (r: u32)
        ensures
            r == MIN_NUM_THREADS,
    {
        MIN_NUM_THREADS
    }

    /// Maximum number of encoder threads supported by the encoder.
    #[allow(non_snake_case)]
    pub fn MAX_NUM_THREADS() -> (r: u32)
        ensures
            r == MAX_NUM_THREADS,
    {
        MAX_NUM_THREADS
    }

    /// Default number of encoder threads used by the safe wrapper.
    #[allow(non_snake_case)]
    pub fn DEFAULT_NUM_THREADS() -> (r: u32)
        ensures
            r == DEFAULT_NUM_THREADS,
    {
        DEFAULT_NUM_THREADS
    }

    /// Creates a builder for raw `LZMA` encoder options, starting from the defaults.
    pub fn builder() -> (r: OptionsBuilder)
        ensures
            is_default_options(r.options()@),
    {
        OptionsBuilder { options: Self::default() }
    }

    /// Sets the dictionary size in bytes; sizes below [`MIN_DICT_SIZE`] are rejected.
    pub fn with_dict_size(self, dict_size: u32) -> (r: Result<Self, Error>)
        ensures
            r is Ok <==> dict_size >= MIN_DICT_SIZE,
            r matches Ok(o) ==> o@ == (OptionsModel { dict_size: Some(dict_size), ..self@ }),
            r matches Err(e) ==> is_invalid_option(e, "dict_size"@, "expected at least 4096 bytes"@),
    {
        if dict_size < MIN_DICT_SIZE {
            return Err(
                invalid_option(
                    String::from_str("dict_size"),
                    String::from_str("expected at least 4096 bytes"),
                ),
            );
        }
        let mut s = self;
        proof {
            use_type_invariant(&s);
        }
        s.dict_size = Some(dict_size);
        Ok(s)
    }

    /// Sets the number of encoder threads; values outside 1..=2 are rejected.
    pub fn with_num_threads(self, num_threads: u32) -> (r: Result<Self, Error>)
        ensures
            r is Ok <==> MIN_NUM_THREADS <= num_threads <= MAX_NUM_THREADS,
            r matches Ok(o) ==> o@ == (OptionsModel { num_threads, ..self@ }),
            r matches Err(e) ==> is_invalid_option(e, "num_threads"@, "expected a value in 1..=2"@),
    {
        if !(MIN_NUM_THREADS <= num_threads && num_threads <= MAX_NUM_THREADS) {
            return Err(
                invalid_option(
                    String::from_str("num_threads"),
                    String::from_str("expected a value in 1..=2"),
                ),
            );
        }
        let mut s = self;
        proof {
            use_type_invariant(&s);
        }
        s.num_threads = num_threads;
        Ok(s)
    }

    /// Hints the source size so the SDK can tune its internal settings.
    pub fn with_reduce_size(self, reduce_size: u64) -> (r: Self)
        ensures
            r@ == (OptionsModel { reduce_size: Some(reduce_size), ..self@ }),
    {
        let mut s = self;
        proof {
            use_type_invariant(&s);
        }
        s.reduce_size = Some(reduce_size);
        s
    }

    /// Sets whether the encoded stream should include an end marker.
    pub fn with_end_marker(self, end_marker: EndMarkerMode) -> (r: Self)
        ensures
            r@ == (OptionsModel { end_marker, ..self@ }),
    {
        let mut s = self;
        proof {
            use_type_invariant(&s);
        }
        s.end_marker = end_marker;
        s
    }

    /// Sets the match-cycle limit used by the match finder; the limit is never zero.
    pub fn with_match_cycles(self, match_cycles: u32) -> (r: Self)
        requires
            match_cycles != 0,
        ensures
            r@ == (OptionsModel { match_cycles: Some(match_cycles), ..self@ }),
    {
        let mut s = self;
        proof {
            use_type_invariant(&s);
        }
        s.match_cycles = Some(match_cycles);
        s
    }

    /// Sets the number of output hash bits used by the SDK match finder.
    pub fn with_hash_out_bits(self, hash_out_bits: u32) -> (r: Self)
        ensures
            r@ == (OptionsModel { hash_out_bits: Some(hash_out_bits), ..self@ }),
    {
        let mut s = self;
        proof {
            use_type_invariant(&s);
        }
        s.hash_out_bits = Some(hash_out_bits);
        s
    }

    /// Sets the affinity group for SDK worker threads.
    pub fn with_affinity_group(self, affinity_group: i32) -> (r: Self)
        ensures
            r@ == (OptionsModel { affinity_group: Some(affinity_group), ..self@ }),
    {
        let mut s = self;
        proof {
            use_type_invariant(&s);
        }
        s.affinity_group = Some(affinity_group);
        s
    }

    /// Sets the CPU affinity mask for SDK worker threads.
    pub fn with_affinity(self, affinity: u64) -> (r: Self)
        ensures
            r@ == (OptionsModel { affinity: Some(affinity), ..self@ }),
    {
        let mut s = self;
        proof {
            use_type_invariant(&s);
        }
        s.affinity = Some(affinity);
        s
    }

    /// Sets the affinity mask within the selected SDK thread group.
    pub fn with_affinity_in_group(self, affinity: u64) -> (r: Self)
        ensures
            r@ == (OptionsModel { affinity_in_group: Some(affinity), ..self@ }),
    {
        let mut s = self;
        proof {
            use_type_invariant(&s);
        }
        s.affinity_in_group = Some(affinity);
        s
    }

    /// Returns the compression level used by the encoder.
    pub fn level(&self) -> (r: CompressionLevel)
        ensures
            r == self@.level,
    {
        self.level
    }

    /// Returns the dictionary size in bytes used by the encoder.
    pub fn dict_size(&self) -> (r: Option<u32>)
        ensures
            r == self@.dict_size,
            r matches Some(d) ==> d >= MIN_DICT_SIZE,
    {
        proof {
            use_type_invariant(self);
        }
        self.dict_size
    }

    /// Returns the literal context bits (`lc`) used by the encoder.
    pub fn lc(&self) -> (r: LiteralContextBits)
        ensures
            r == self@.lc,
    {
        self.lc
    }

    /// Returns the literal position bits (`lp`) used by the encoder.
    pub fn lp(&self) -> (r: LiteralPosBits)
        ensures
            r == self@.lp,
    {
        self.lp
    }

    /// Returns the position bits (`pb`) used by the encoder.
    pub fn pb(&self) -> (r: PosBits)
        ensures
            r == self@.pb,
    {
        self.pb
    }

    /// Returns the encoder algorithm used by the encoder.
    pub fn algorithm(&self) -> (r: Algorithm)
        ensures
            r == self@.algorithm,
    {
        self.algorithm
    }

    /// Returns the number of fast bytes used by the encoder.
    pub fn fast_bytes(&self) -> (r: FastBytes)
        ensures
            r == self@.fast_bytes,
    {
        self.fast_bytes
    }

    /// Returns the match finder implementation used by the encoder.
    pub fn match_finder(&self) -> (r: MatchFinderMode)
        ensures
            r == self@.match_finder,
    {
        self.match_finder
    }

    /// Returns the number of hash bytes used by the match finder.
    pub fn hash_bytes(&self) -> (r: HashBytes)
        ensures
            r == self@.hash_bytes,
    {
        self.hash_bytes
    }

    /// Returns the number of output hash bits used by the match finder.
    pub fn hash_out_bits(&self) -> (r: Option<u32>)
        ensures
            r == self@.hash_out_bits,
    {
        self.hash_out_bits
    }

    /// Returns the match-cycle limit used by the match finder.
    pub fn match_cycles(&self) -> (r: Option<u32>)
        ensures
            r == self@.match_cycles,
    {
        self.match_cycles
    }

    /// Returns whether the encoded stream should include an end marker.
    pub fn end_marker(&self) -> (r: EndMarkerMode)
        ensures
            r == self@.end_marker,
    {
        self.end_marker
    }

    /// Returns the number of encoder threads used by the encoder.
    pub fn num_threads(&self) -> (r: u32)
        ensures
            r == self@.num_threads,
            MIN_NUM_THREADS <= r <= MAX_NUM_THREADS,
    {
        proof {
            use_type_invariant(self);
        }
        self.num_threads
    }

    /// Returns the source size hint used by the encoder.
    pub fn reduce_size(&self) -> (r: Option<u64>)
        ensures
            r == self@.reduce_size,
    {
        self.reduce_size
    }

    /// Returns the affinity group used by the encoder.
    pub fn affinity_group(&self) -> (r: Option<i32>)
        ensures
            r == self@.affinity_group,
    {
        self.affinity_group
    }

    /// Returns the CPU affinity mask used by the encoder.
    pub fn affinity(&self) -> (r: Option<u64>)
        ensures
            r == self@.affinity,
    {
        self.affinity
    }

    /// Returns the affinity mask within the selected SDK thread group used by the encoder.
    pub fn affinity_in_group(&self) -> (r: Option<u64>)
        ensures
            r == self@.affinity_in_group,
    {
        self.affinity_in_group
    }

    /// Converts these options into the SDK's raw encoder property record.
    pub fn to_raw_encoder_props(&self) -> (r: RawEncoderProps)
        ensures
            r == spec_raw_encoder_props(self@),
    {
        proof {
            use_type_invariant(self);
        }
        let mut props = default_encoder_props();
        props.level = self.level.get() as i32;
        if let Some(dict_size) = self.dict_size {
            props.dictSize = dict_size;
        }
        props.lc = self.lc.get() as i32;
        props.lp = self.lp.get() as i32;
        props.pb = self.pb.get() as i32;
        props.algo = self.algorithm.raw();
        props.fb = self.fast_bytes.get() as i32;
        props.btMode = self.match_finder.raw();
        props.numHashBytes = self.hash_bytes.raw();
        if let Some(hash_out_bits) = self.hash_out_bits {
            props.numHashOutBits = hash_out_bits;
        }
        if let Some(match_cycles) = self.match_cycles {
            props.mc = match_cycles;
        }
        props.writeEndMark = self.end_marker.raw();
        props.numThreads = self.num_threads as i32;
        if let Some(affinity_group) = self.affinity_group {
            props.affinityGroup = affinity_group;
        }
        if let Some(reduce_size) = self.reduce_size {
            props.reduceSize = reduce_size;
        }
        if let Some(affinity) = self.affinity {
            props.affinity = affinity;
        }
        if let Some(affinity) = self.affinity_in_group {
            props.affinityInGroup = affinity;
        }
        props
    }
}

/// Builder for [`Options`].
pub struct OptionsBuilder {
    options: Options,
}

impl OptionsBuilder {
    /// The options built so far.
    pub closed spec fn options(self) -> Options {
        self.options
    }

    /// Sets the compression level.
    pub fn level(self, level: CompressionLevel) -> (r: Self)
        ensures
            r.options()@ == (OptionsModel { level, ..self.options()@ }),
    {
        let mut s = self;
        proof {
            use_type_invariant(&s.options);
        }
        s.options.level = level;
        s
    }

    /// Sets the dictionary size in bytes; sizes below [`MIN_DICT_SIZE`] are rejected.
    pub fn dict_size(self, dict_size: u32) -> (r: Result<Self, Error>)
        ensures
            r is Ok <==> dict_size >= MIN_DICT_SIZE,
            r matches Ok(b) ==> b.options()@ == (OptionsModel {
                dict_size: Some(dict_size),
                ..self.options()@
            }),
            r matches Err(e) ==> is_invalid_option(e, "dict_size"@, "expected at least 4096 bytes"@),
    {
        match self.options.with_dict_size(dict_size) {
            Ok(options) => Ok(OptionsBuilder { options }),
            Err(e) => Err(e),
        }
    }

    /// Sets the literal context bits (`lc`).
    pub fn literal_context_bits(self, lc: LiteralContextBits) -> (r: Self)
        ensures
            r.options()@ == (OptionsModel { lc, ..self.options()@ }),
    {
        let mut s = self;
        proof {
            use_type_invariant(&s.options);
        }
        s.options.lc = lc;
        s
    }

    /// Sets the literal position bits (`lp`).
    pub fn literal_pos_bits(self, lp: LiteralPosBits) -> (r: Self)
        ensures
            r.options()@ == (OptionsModel { lp, ..self.options()@ }),
    {
        let mut s = self;
        proof {
            use_type_invariant(&s.options);
        }
        s.options.lp = lp;
        s
    }

    /// Sets the position bits (`pb`).
    pub fn pos_bits(self, pb: PosBits) -> (r: Self)
        ensures
            r.options()@ == (OptionsModel { pb, ..self.options()@ }),
    {
        let mut s = self;
        proof {
            use_type_invariant(&s.options);
        }
        s.options.pb = pb;
        s
    }

    /// Sets the encoder algorithm.
    pub fn algorithm(self, algorithm: Algorithm) -> (r: Self)
        ensures
            r.options()@ == (OptionsModel { algorithm, ..self.options()@ }),
    {
        let mut s = self;
        proof {
            use_type_invariant(&s.options);
        }
        s.options.algorithm = algorithm;
        s
    }

    /// Sets the number of fast bytes.
    pub fn fast_bytes(self, fast_bytes: FastBytes) -> (r: Self)
        ensures
            r.options()@ == (OptionsModel { fast_bytes, ..self.options()@ }),
    {
        let mut s = self;
        proof {
            use_type_invariant(&s.options);
        }
        s.options.fast_bytes = fast_bytes;
        s
    }

    /// Sets the match finder implementation.
    pub fn match_finder(self, match_finder: MatchFinderMode) -> (r: Self)
        ensures
            r.options()@ == (OptionsModel { match_finder, ..self.options()@ }),
    {
        let mut s = self;
        proof {
            use_type_invariant(&s.options);
        }
        s.options.match_finder = match_finder;
        s
    }

    /// Sets the number of hash bytes used by the match finder.
    pub fn hash_bytes(self, hash_bytes: HashBytes) -> (r: Self)
        ensures
            r.options()@ == (OptionsModel { hash_bytes, ..self.options()@ }),
    {
        let mut s = self;
        proof {
            use_type_invariant(&s.options);
        }
        s.options.hash_bytes = hash_bytes;
        s
    }

    /// Sets the number of output hash bits used by the SDK.
    pub fn hash_out_bits(self, hash_out_bits: u32) -> (r: Self)
        ensures
            r.options()@ == (OptionsModel { hash_out_bits: Some(hash_out_bits), ..self.options()@ }),
    {
        let mut s = self;
        proof {
            use_type_invariant(&s.options);
        }
        s.options.hash_out_bits = Some(hash_out_bits);
        s
    }

    /// Sets the match-cycle limit used by the match finder; the limit is never zero.
    pub fn match_cycles(self, match_cycles: u32) -> (r: Self)
        requires
            match_cycles != 0,
        ensures
            r.options()@ == (OptionsModel { match_cycles: Some(match_cycles), ..self.options()@ }),
    {
        let mut s = self;
        proof {
            use_type_invariant(&s.options);
        }
        s.options.match_cycles = Some(match_cycles);
        s
    }

    /// Sets whether the encoder should write an end marker.
    pub fn end_marker(self, end_marker: EndMarkerMode) -> (r: Self)
        ensures
            r.options()@ == (OptionsModel { end_marker, ..self.options()@ }),
    {
        let mut s = self;
        proof {
            use_type_invariant(&s.options);
        }
        s.options.end_marker = end_marker;
        s
    }

    /// Sets the number of encoder threads; values outside 1..=2 are rejected.
    pub fn num_threads(self, num_threads: u32) -> (r: Result<Self, Error>)
        ensures
            r is Ok <==> MIN_NUM_THREADS <= num_threads <= MAX_NUM_THREADS,
            r matches Ok(b) ==> b.options()@ == (OptionsModel { num_threads, ..self.options()@ }),
            r matches Err(e) ==> is_invalid_option(e, "num_threads"@, "expected a value in 1..=2"@),
    {
        match self.options.with_num_threads(num_threads) {
            Ok(options) => Ok(OptionsBuilder { options }),
            Err(e) => Err(e),
        }
    }

    /// Hints the source size so the SDK can tune its internal settings.
    pub fn reduce_size(self, reduce_size: u64) -> (r: Self)
        ensures
            r.options()@ == (OptionsModel { reduce_size: Some(reduce_size), ..self.options()@ }),
    {
        let mut s = self;
        proof {
            use_type_invariant(&s.options);
        }
        s.options.reduce_size = Some(reduce_size);
        s
    }

    /// Sets the affinity group for SDK worker threads.
    pub fn affinity_group(self, affinity_group: i32) -> (r: Self)
        ensures
            r.options()@ == (OptionsModel {
                affinity_group: Some(affinity_group),
                ..self.options()@
            }),
    {
        let mut s = self;
        proof {
            use_type_invariant(&s.options);
        }
        s.options.affinity_group = Some(affinity_group);
        s
    }

    /// Sets the CPU affinity mask for SDK worker threads.
    pub fn affinity(self, affinity: u64) -> (r: Self)
        ensures
            r.options()@ == (OptionsModel { affinity: Some(affinity), ..self.options()@ }),
    {
        let mut s = self;
        proof {
            use_type_invariant(&s.options);
        }
        s.options.affinity = Some(affinity);
        s
    }

    /// Sets the affinity mask within the selected SDK thread group.
    pub fn affinity_in_group(self, affinity: u64) -> (r: Self)
        ensures
            r.options()@ == (OptionsModel { affinity_in_group: Some(affinity), ..self.options()@ }),
    {
        let mut s = self;
        proof {
            use_type_invariant(&s.options);
        }
        s.options.affinity_in_group = Some(affinity);
        s
    }

    /// Builds the configured raw `LZMA` options value.
    pub fn build(self) -> (r: Options)
        ensures
            r == self.options(),
            r@ == self.options()@,
    {
        self.options
    }
}

} // verus!
