//! Standalone pre/post-processing filters: branch-conversion bookkeeping for executable
//! code, and the delta filter for data with a fixed stride.

use vstd::prelude::*;

use crate::error::{invalid_option, is_invalid_option, Error};

verus! {

/// Whether a branch conversion prepares code for compression or restores it afterwards.
#[derive(Debug, Clone, Copy, PartialEq, Eq)]
pub enum BranchMode {
    /// Transform executable code before compression or storage to improve compressibility.
    Encode,
    /// Restore the original executable code after decompression or retrieval.
    Decode,
}

/// The family of executable code (CPU ISA) a branch conversion is for.
#[derive(Debug, Clone, Copy, PartialEq, Eq)]
pub enum BranchFilter {
    /// x86 and x86_64 instruction set.
    X86,
    /// ARM 32-bit mode (A32).
    Arm,
    /// ARM Thumb mode (T16/T32).
    ArmThumb,
    /// 64-bit ARM architecture (AArch64).
    Arm64,
    /// PowerPC family.
    PowerPc,
    /// SPARC instruction set.
    Sparc,
    /// IA-64 (Itanium).
    Ia64,
    /// RISC-V instruction set.
    RiscV,
}

/// The inputs of one run of an SDK branch-conversion kernel.
#[derive(Debug, Clone, Copy, PartialEq, Eq)]
pub struct BranchKernel {
    /// Which architecture's kernel to run.
    pub filter: BranchFilter,
    /// `true` for the encoding kernel, `false` for the decoding one.
    pub encode: bool,
    /// Virtual program counter of the first byte handed to the kernel.
    pub pc: u32,
    /// Carried x86 converter state (the other kernels carry none).
    pub x86_state: u32,
}

/// Stateful, incremental branch-instruction converter state: the architecture, the
/// direction, the virtual program counter of the next chunk, and the x86 kernel's state.
///
/// The conversion kernels themselves are the SDK's; this type decides which kernel runs with
/// which inputs and keeps the counters in step across chunks.
#[derive(Debug, Clone, Copy, PartialEq, Eq)]
pub struct BranchConverter {
    filter: BranchFilter,
    mode: BranchMode,
    pc: u32,
    x86_state: u32,
}

impl BranchConverter {
    /// Only the x86 kernel carries state; every other converter keeps it at zero.
    #[verifier::type_invariant]
    spec fn state_only_for_x86(self) -> bool {
        self.filter != BranchFilter::X86 ==> self.x86_state == 0
    }

    /// The selected architecture.
    pub closed spec fn spec_filter(self) -> BranchFilter {
        self.filter
    }

    /// The selected direction.
    pub closed spec fn spec_mode(self) -> BranchMode {
        self.mode
    }

    /// Virtual program counter of the next byte to convert.
    pub closed spec fn spec_pc(self) -> u32 {
        self.pc
    }

    /// Carried x86 kernel state.
    pub closed spec fn spec_x86_state(self) -> u32 {
        self.x86_state
    }

    /// Constructs a converter for the architecture, direction and starting virtual address,
    /// with a clean x86 state.
    pub fn new(filter: BranchFilter, mode: BranchMode, start_pc: u32) -> (r: Self)
        ensures
            r.spec_filter() == filter,
            r.spec_mode() == mode,
            r.spec_pc() == start_pc,
            r.spec_x86_state() == 0,
    {
        BranchConverter { filter, mode, pc: start_pc, x86_state: 0 }
    }

    /// Resets the program counter and clears the x86 state for a new stream or chunk.
    pub fn reset(&mut self, start_pc: u32)
        ensures
            final(self).spec_filter() == old(self).spec_filter(),
            final(self).spec_mode() == old(self).spec_mode(),
            final(self).spec_pc() == start_pc,
            final(self).spec_x86_state() == 0,
    {
        proof {
            use_type_invariant(&*self);
        }
        self.x86_state = 0;
        self.pc = start_pc;
    }

    /// The kernel to run on the next chunk, with the inputs it starts from.
    pub fn kernel(&self) -> (r: BranchKernel)
        ensures
            r.filter == self.spec_filter(),
            r.encode == (self.spec_mode() == BranchMode::Encode),
            r.pc == self.spec_pc(),
            r.x86_state == self.spec_x86_state(),
            r.filter != BranchFilter::X86 ==> r.x86_state == 0,
    {
        proof {
            use_type_invariant(self);
        }
        BranchKernel {
            filter: self.filter,
            encode: match self.mode {
                BranchMode::Encode => true,
                BranchMode::Decode => false,
            },
            pc: self.pc,
            x86_state: self.x86_state,
        }
    }

    /// Records one conversion step over a chunk of `data_len` bytes: an empty chunk runs no
    /// kernel and changes nothing; otherwise the kernel processed `processed` bytes and left
    /// the x86 state at `x86_state`, and the program counter advances by `processed`
    /// (wrapping at 2^32). Returns the number of bytes processed.
    pub fn transform_in_place(&mut self, data_len: usize, processed: usize, x86_state: u32) -> (r:
        usize)
        requires
            processed <= data_len,
        ensures
            data_len == 0 ==> r == 0 && *final(self) == *old(self),
            r <= data_len,
            final(self).spec_filter() != BranchFilter::X86 ==> final(self).spec_x86_state() == 0,
            data_len != 0 ==> {
                &&& r == processed
                &&& final(self).spec_filter() == old(self).spec_filter()
                &&& final(self).spec_mode() == old(self).spec_mode()
                &&& final(self).spec_pc() == ((old(self).spec_pc() + processed) % 0x1_0000_0000)
                    as u32
                &&& final(self).spec_x86_state() == (if old(self).spec_filter() == BranchFilter::X86 {
                    x86_state
                } else {
                    old(self).spec_x86_state()
                })
            },
    {
        proof {
            use_type_invariant(&*self);
        }
        if data_len == 0 {
            return 0;
        }
        if let BranchFilter::X86 = self.filter {
            self.x86_state = x86_state;
        }
        let step: u32 = ((processed as u64) % 0x1_0000_0000u64) as u32;
        self.pc = self.pc.wrapping_add(step);
        processed
    }
}

/// Smallest accepted delta distance.
pub const MIN_DELTA_DISTANCE: u32 = 1;
/// Largest accepted delta distance.
pub const MAX_DELTA_DISTANCE: u32 = 256;

/// `a - b` modulo 256.
pub open spec fn byte_sub(a: u8, b: u8) -> u8 {
    if a >= b {
        (a - b) as u8
    } else {
        (a - b + 256) as u8
    }
}

/// `a + b` modulo 256.
pub open spec fn byte_add(a: u8, b: u8) -> u8 {
    if a + b < 256 {
        (a + b) as u8
    } else {
        (a + b - 256) as u8
    }
}

/// Delta encoding of `data` after a stream whose last `history.len()` bytes are `history`:
/// every byte becomes its difference from the byte `history.len()` positions earlier.
pub open spec fn delta_encode(history: Seq<u8>, data: Seq<u8>) -> Seq<u8> {
    Seq::new(data.len(), |i: int| byte_sub(data[i], (history + data)[i]))
}

/// Delta decoding of `encoded` after a stream whose last `history.len()` decoded bytes are
/// `history`: every byte is the sum of its encoded value and the decoded byte
/// `history.len()` positions earlier.
pub open spec fn delta_decode(history: Seq<u8>, encoded: Seq<u8>) -> Seq<u8>
    decreases encoded.len(),
{
    if encoded.len() == 0 {
        Seq::empty()
    } else {
        let prefix = delta_decode(history, encoded.drop_last());
        prefix.push(byte_add(encoded.last(), (history + prefix)[encoded.len() - 1]))
    }
}

/// The history kept after a chunk: the last `history.len()` bytes of history and chunk.
pub open spec fn next_history(history: Seq<u8>, data: Seq<u8>) -> Seq<u8> {
    (history + data).subrange(data.len() as int, (data.len() + history.len()) as int)
}

/// Decoding has the length of its input.
pub proof fn lemma_delta_decode_len(history: Seq<u8>, encoded: Seq<u8>)
    ensures
        delta_decode(history, encoded).len() == encoded.len(),
    decreases encoded.len(),
{
    if encoded.len() > 0 {
        lemma_delta_decode_len(history, encoded.drop_last());
    }
}

/// Decoding a prefix of `encoded` gives the same prefix of the full decoding.
pub proof fn lemma_delta_decode_prefix(history: Seq<u8>, encoded: Seq<u8>, n: int)
    requires
        0 <= n <= encoded.len(),
    ensures
        delta_decode(history, encoded.take(n)) == delta_decode(history, encoded).take(n),
    decreases encoded.len(),
{
    lemma_delta_decode_len(history, encoded);
    if n == encoded.len() {
        assert(encoded.take(n) =~= encoded);
        assert(delta_decode(history, encoded).take(n) =~= delta_decode(history, encoded));
    } else {
        assert(encoded.drop_last().take(n) =~= encoded.take(n));
        lemma_delta_decode_prefix(history, encoded.drop_last(), n);
        lemma_delta_decode_len(history, encoded.drop_last());
        assert(delta_decode(history, encoded).take(n) =~= delta_decode(history, encoded.drop_last()).take(n));
    }
}

/// Delta decoding undoes delta encoding from the same history: this is what makes an
/// encoder and a decoder created with the same distance round-trip any data.
pub proof fn lemma_delta_round_trip(history: Seq<u8>, data: Seq<u8>)
    requires
        history.len() >= 1,
    ensures
        delta_decode(history, delta_encode(history, data)) == data,
    decreases data.len(),
{
    let e = delta_encode(history, data);
    if data.len() > 0 {
        let d0 = data.drop_last();
        assert(e.drop_last() =~= delta_encode(history, d0)) by {
            assert forall|i: int| 0 <= i < d0.len() implies (history + data)[i] == (history + d0)[i] by {
                if i < history.len() {
                } else {
                }
            }
        }
        lemma_delta_round_trip(history, d0);
        let n = data.len() - 1;
        assert((history + d0)[n] == (history + data)[n]);
        assert(delta_decode(history, e) =~= data);
    }
}

/// Encoding a stream in two chunks, carrying the history across, gives the encoding of the
/// whole stream: the filter's output does not depend on where the input is split.
pub proof fn lemma_delta_encode_chunks(history: Seq<u8>, a: Seq<u8>, b: Seq<u8>)
    ensures
        delta_encode(history, a + b) == delta_encode(history, a) + delta_encode(
            next_history(history, a),
            b,
        ),
        next_history(next_history(history, a), b) == next_history(history, a + b),
{
    let h2 = next_history(history, a);
    assert(h2.len() == history.len());
    assert(delta_encode(history, a + b) =~= delta_encode(history, a) + delta_encode(h2, b)) by {
        assert forall|i: int| 0 <= i < b.len() implies (h2 + b)[i] == (history + (a + b))[a.len() + i] by {
            if i < history.len() {
            } else {
            }
        }
        assert forall|i: int| 0 <= i < a.len() implies (history + a)[i] == (history + (a + b))[i] by {}
    }
    assert(next_history(h2, b) =~= next_history(history, a + b)) by {
        assert forall|i: int| 0 <= i < history.len() implies next_history(h2, b)[i] == next_history(history, a + b)[i] by {
            if b.len() + i < history.len() {
            } else {
            }
        }
    }
}

/// Stateful delta filter: keeps the last `distance` bytes of the stream so it can be applied
/// to data split into chunks anywhere.
#[derive(Debug, PartialEq, Eq)]
pub struct DeltaFilter {
    distance: u32,
    history: Vec<u8>,
}

impl DeltaFilter {
    #[verifier::type_invariant]
    spec fn history_matches_distance(self) -> bool {
        &&& MIN_DELTA_DISTANCE <= self.distance <= MAX_DELTA_DISTANCE
        &&& self.history@.len() == self.distance
    }

    /// The byte distance the filter subtracts across.
    pub closed spec fn spec_distance(self) -> u32 {
        self.distance
    }

    /// The last `distance` bytes of the plain stream seen so far (zeros at the start).
    pub closed spec fn spec_history(self) -> Seq<u8> {
        self.history@
    }

    /// Constructs a delta filter for the distance; distances outside 1..=256 are rejected.
    pub fn new(distance: u32) -> (r: Result<Self, Error>)
        ensures
            r is Ok <==> MIN_DELTA_DISTANCE <= distance <= MAX_DELTA_DISTANCE,
            r matches Ok(f) ==> f.spec_distance() == distance && f.spec_history() == Seq::new(
                distance as nat,
                |i: int| 0u8,
            ),
            r matches Err(e) ==> is_invalid_option(
                e,
                "distance"@,
                "delta distance must be in 1..=256"@,
            ),
    {
        if !(MIN_DELTA_DISTANCE <= distance && distance <= MAX_DELTA_DISTANCE) {
            return Err(
                invalid_option(
                    String::from_str("distance"),
                    String::from_str("delta distance must be in 1..=256"),
                ),
            );
        }
        let mut filter = DeltaFilter { distance, history: zeros(distance as usize) };
        filter.reset();
        Ok(filter)
    }

    /// Clears the history so the next chunk is treated as the start of a new stream.
    pub fn reset(&mut self)
        ensures
            final(self).spec_distance() == old(self).spec_distance(),
            final(self).spec_history() == Seq::new(old(self).spec_distance() as nat, |i: int| 0u8),
    {
        proof {
            use_type_invariant(&*self);
        }
        let h = zeros(self.distance as usize);
        self.history = h;
    }

    /// Delta-encodes `data` in place, continuing from the bytes seen before.
    pub fn encode_in_place(&mut self, data: &mut [u8])
        ensures
            final(self).spec_distance() == old(self).spec_distance(),
            final(data)@ == delta_encode(old(self).spec_history(), old(data)@),
            final(self).spec_history() == next_history(old(self).spec_history(), old(data)@),
    {
        proof {
            use_type_invariant(&*self);
        }
        let dist = self.distance as usize;
        let len = data.len();
        let ghost h = self.history@;
        let ghost orig = data@;
        let next = self.following_history(data);
        let mut j = len;
        while j > 0
            invariant
                j <= len,
                len == orig.len(),
                dist == h.len(),
                self.history@ == h,
                data@.len() == len,
                forall|k: int| 0 <= k < j ==> data@[k] == orig[k],
                forall|k: int| j <= k < len ==> data@[k] == byte_sub(orig[k], (h + orig)[k]),
            decreases j,
        {
            j = j - 1;
            let prev = if j < dist {
                self.history[j]
            } else {
                data[j - dist]
            };
            data[j] = data[j].wrapping_sub(prev);
        }
        assert(data@ =~= delta_encode(h, orig));
        self.history = next;
    }

    /// Delta-decodes `data` in place, continuing from the bytes decoded before.
    pub fn decode_in_place(&mut self, data: &mut [u8])
        ensures
            final(self).spec_distance() == old(self).spec_distance(),
            final(data)@ == delta_decode(old(self).spec_history(), old(data)@),
            final(self).spec_history() == next_history(old(self).spec_history(), final(data)@),
    {
        proof {
            use_type_invariant(&*self);
        }
        let dist = self.distance as usize;
        let len = data.len();
        let ghost h = self.history@;
        let ghost enc = data@;
        let mut j: usize = 0;
        while j < len
            invariant
                j <= len,
                len == enc.len(),
                dist == h.len(),
                dist >= 1,
                self.history@ == h,
                data@.len() == len,
                data@.take(j as int) == delta_decode(h, enc.take(j as int)),
                forall|k: int| j <= k < len ==> data@[k] == enc[k],
            decreases len - j,
        {
            proof {
                lemma_delta_decode_len(h, enc.take(j as int));
            }
            let prev = if j < dist {
                self.history[j]
            } else {
                data[j - dist]
            };
            let ghost before = data@;
            data[j] = data[j].wrapping_add(prev);
            proof {
                let t = enc.take(j + 1);
                let p = delta_decode(h, enc.take(j as int));
                assert(t.drop_last() =~= enc.take(j as int));
                assert(p.len() == j);
                if j >= dist {
                    assert(before[j - dist] == before.take(j as int)[j - dist]);
                }
                assert((h + p)[j as int] == prev);
                assert(data@.take(j + 1) =~= delta_decode(h, t));
            }
            j = j + 1;
        }
        assert(data@.take(len as int) =~= data@);
        assert(enc.take(len as int) =~= enc);
        let next = self.following_history(data);
        self.history = next;
    }

    /// The history after `data`: the last `distance` bytes of the old history followed by
    /// `data`.
    fn following_history(&self, data: &[u8]) -> (r: Vec<u8>)
        ensures
            r@ == next_history(self.spec_history(), data@),
    {
        proof {
            use_type_invariant(self);
        }
        let dist = self.distance as usize;
        let len = data.len();
        let mut r: Vec<u8> = Vec::new();
        let mut k: usize = 0;
        let ghost ext = self.history@ + data@;
        while k < dist
            invariant
                k <= dist,
                dist == self.history@.len(),
                len == data@.len(),
                ext == self.history@ + data@,
                r@ == ext.subrange(len as int, len + k),
            decreases dist - k,
        {
            let b = if len < dist - k {
                self.history[len + k]
            } else {
                data[len - (dist - k)]
            };
            r.push(b);
            k = k + 1;
            assert(r@ =~= ext.subrange(len as int, len + k));
        }
        r
    }
}

impl Clone for DeltaFilter {
    fn clone(&self) -> (r: Self)
        ensures
            r.spec_distance() == self.spec_distance(),
            r.spec_history() == self.spec_history(),
    {
        proof {
            use_type_invariant(self);
        }
        let mut history: Vec<u8> = Vec::new();
        let mut k: usize = 0;
        while k < self.history.len()
            invariant
                k <= self.history@.len(),
                history@ == self.history@.take(k as int),
            decreases self.history@.len() - k,
        {
            history.push(self.history[k]);
            k = k + 1;
            assert(history@ =~= self.history@.take(k as int));
        }
        assert(history@ =~= self.history@);
        DeltaFilter { distance: self.distance, history }
    }
}

/// A vector of `n` zero bytes.
fn zeros(n: usize) -> (r: Vec<u8>)
    ensures
        r@ == Seq::new(n as nat, |i: int| 0u8),
{
    let mut r: Vec<u8> = Vec::new();
    let mut k: usize = 0;
    while k < n
        invariant
            k <= n,
            r@ == Seq::new(k as nat, |i: int| 0u8),
        decreases n - k,
    {
        r.push(0);
        k = k + 1;
        assert(r@ =~= Seq::new(k as nat, |i: int| 0u8));
    }
    r
}

} // verus!
