//! CRC-32, CRC-64 and SHA-256 digests as the `xz`/7-Zip container formats define them.
//!
//! Both CRCs are the reflected forms used by `xz`: CRC-32 with polynomial `0xEDB88320`
//! (IEEE 802.3) and CRC-64 with polynomial `0xC96C5795D7870F42` (ECMA-182), each started
//! from all ones and finished by inverting every bit.

use vstd::prelude::*;

mod sha256;

pub use sha256::{sha256, spec_sha256, Sha256};

verus! {

/// Reflected CRC-32 polynomial.
pub const CRC32_POLY: u32 = 0xEDB8_8320;
/// Reflected CRC-64 polynomial.
pub const CRC64_POLY: u64 = 0xC96C_5795_D787_0F42;

/// One bit step of the reflected CRC-32 register.
pub open spec fn crc32_shift(c: u32) -> u32 {
    if c & 1 == 1 {
        (c >> 1) ^ CRC32_POLY
    } else {
        c >> 1
    }
}

/// `n` bit steps of the CRC-32 register.
pub open spec fn crc32_bits(c: u32, n: nat) -> u32
    decreases n,
{
    if n == 0 {
        c
    } else {
        crc32_bits(crc32_shift(c), (n - 1) as nat)
    }
}

/// The CRC-32 register after feeding one byte.
pub open spec fn crc32_byte(c: u32, b: u8) -> u32 {
    crc32_bits(c ^ (b as u32), 8)
}

/// The CRC-32 register after feeding `data` starting from register `c`.
pub open spec fn crc32_update(c: u32, data: Seq<u8>) -> u32
    decreases data.len(),
{
    if data.len() == 0 {
        c
    } else {
        crc32_byte(crc32_update(c, data.drop_last()), data.last())
    }
}

/// The CRC-32 checksum of `data`.
pub open spec fn spec_crc32(data: Seq<u8>) -> u32 {
    crc32_update(u32::MAX, data) ^ u32::MAX
}

/// One bit step of the reflected CRC-64 register.
pub open spec fn crc64_shift(c: u64) -> u64 {
    if c & 1 == 1 {
        (c >> 1) ^ CRC64_POLY
    } else {
        c >> 1
    }
}

/// `n` bit steps of the CRC-64 register.
pub open spec fn crc64_bits(c: u64, n: nat) -> u64
    decreases n,
{
    if n == 0 {
        c
    } else {
        crc64_bits(crc64_shift(c), (n - 1) as nat)
    }
}

/// The CRC-64 register after feeding one byte.
pub open spec fn crc64_byte(c: u64, b: u8) -> u64 {
    crc64_bits(c ^ (b as u64), 8)
}

/// The CRC-64 register after feeding `data` starting from register `c`.
pub open spec fn crc64_update(c: u64, data: Seq<u8>) -> u64
    decreases data.len(),
{
    if data.len() == 0 {
        c
    } else {
        crc64_byte(crc64_update(c, data.drop_last()), data.last())
    }
}

/// The CRC-64 checksum of `data`.
pub open spec fn spec_crc64(data: Seq<u8>) -> u64 {
    crc64_update(u64::MAX, data) ^ u64::MAX
}

/// Feeding two pieces one after the other leaves the CRC-32 register where feeding their
/// concatenation does.
pub proof fn lemma_crc32_update_concat(c: u32, a: Seq<u8>, b: Seq<u8>)
    ensures
        crc32_update(c, a + b) == crc32_update(crc32_update(c, a), b),
    decreases b.len(),
{
    if b.len() == 0 {
        assert(a + b =~= a);
    } else {
        assert((a + b).drop_last() =~= a + b.drop_last());
        lemma_crc32_update_concat(c, a, b.drop_last());
    }
}

/// Feeding two pieces one after the other leaves the CRC-64 register where feeding their
/// concatenation does.
pub proof fn lemma_crc64_update_concat(c: u64, a: Seq<u8>, b: Seq<u8>)
    ensures
        crc64_update(c, a + b) == crc64_update(crc64_update(c, a), b),
    decreases b.len(),
{
    if b.len() == 0 {
        assert(a + b =~= a);
    } else {
        assert((a + b).drop_last() =~= a + b.drop_last());
        lemma_crc64_update_concat(c, a, b.drop_last());
    }
}

/// Feeds `data` into a CRC-32 register.
pub fn crc32_update_exec(crc: u32, data: &[u8]) -> (r: u32)
    ensures
        r == crc32_update(crc, data@),
{
    let mut c = crc;
    let mut i: usize = 0;
    while i < data.len()
        invariant
            i <= data@.len(),
            c == crc32_update(crc, data@.take(i as int)),
        decreases data@.len() - i,
    {
        let ghost before = c;
        c = c ^ (data[i] as u32);
        let mut k: u32 = 0;
        while k < 8
            invariant
                k <= 8,
                crc32_bits(c, (8 - k) as nat) == crc32_byte(before, data@[i as int]),
            decreases 8 - k,
        {
            c = if c & 1 == 1 {
                (c >> 1) ^ CRC32_POLY
            } else {
                c >> 1
            };
            k = k + 1;
        }
        assert(data@.take(i + 1).drop_last() =~= data@.take(i as int));
        i = i + 1;
    }
    assert(data@.take(data@.len() as int) =~= data@);
    c
}

/// Feeds `data` into a CRC-64 register.
pub fn crc64_update_exec(crc: u64, data: &[u8]) -> (r: u64)
    ensures
        r == crc64_update(crc, data@),
{
    let mut c = crc;
    let mut i: usize = 0;
    while i < data.len()
        invariant
            i <= data@.len(),
            c == crc64_update(crc, data@.take(i as int)),
        decreases data@.len() - i,
    {
        let ghost before = c;
        c = c ^ (data[i] as u64);
        let mut k: u32 = 0;
        while k < 8
            invariant
                k <= 8,
                crc64_bits(c, (8 - k) as nat) == crc64_byte(before, data@[i as int]),
            decreases 8 - k,
        {
            c = if c & 1 == 1 {
                (c >> 1) ^ CRC64_POLY
            } else {
                c >> 1
            };
            k = k + 1;
        }
        assert(data@.take(i + 1).drop_last() =~= data@.take(i as int));
        i = i + 1;
    }
    assert(data@.take(data@.len() as int) =~= data@);
    c
}

/// Calculates the CRC-32 checksum of a byte slice.
pub fn crc32(data: &[u8]) -> (r: u32)
    ensures
        r == spec_crc32(data@),
{
    crc32_update_exec(u32::MAX, data) ^ u32::MAX
}

/// Computes the CRC-64 digest of a byte slice in a single call.
pub fn crc64(data: &[u8]) -> (r: u64)
    ensures
        r == spec_crc64(data@),
{
    let mut hasher = Crc64::new();
    hasher.update(data);
    hasher.finish()
}

/// Stateful, incremental CRC-64 hasher.
#[derive(Debug, Clone, Copy, PartialEq, Eq)]
pub struct Crc64 {
    value: u64,
}

impl Crc64 {
    /// The current CRC-64 register (before the final inversion).
    pub closed spec fn register(self) -> u64 {
        self.value
    }

    /// Creates a new CRC-64 hasher with the register set to all ones.
    pub fn new() -> (r: Self)
        ensures
            r.register() == u64::MAX,
    {
        Crc64 { value: u64::MAX }
    }

    /// Feeds more data into the digest; may be called with zero or more chunks.
    pub fn update(&mut self, data: &[u8])
        ensures
            final(self).register() == crc64_update(old(self).register(), data@),
    {
        self.value = crc64_update_exec(self.value, data);
    }

    /// Returns the CRC-64 digest of everything fed so far.
    pub fn finish(self) -> (r: u64)
        ensures
            r == self.register() ^ u64::MAX,
    {
        self.value ^ u64::MAX
    }
}

impl Default for Crc64 {
    fn default() -> (r: Self)
        ensures
            r.register() == u64::MAX,
    {
        Crc64::new()
    }
}

} // verus!
