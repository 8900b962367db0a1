//! SHA-256 as FIPS 180-4 defines it, one-shot and incremental.

use vstd::prelude::*;

verus! {

/// The 64 round constants of SHA-256.
pub open spec fn sha256_k() -> Seq<u32> {
    seq![
        0x428a2f98u32, 0x71374491, 0xb5c0fbcf, 0xe9b5dba5, 0x3956c25b, 0x59f111f1, 0x923f82a4,
        0xab1c5ed5, 0xd807aa98, 0x12835b01, 0x243185be, 0x550c7dc3, 0x72be5d74, 0x80deb1fe,
        0x9bdc06a7, 0xc19bf174, 0xe49b69c1, 0xefbe4786, 0x0fc19dc6, 0x240ca1cc, 0x2de92c6f,
        0x4a7484aa, 0x5cb0a9dc, 0x76f988da, 0x983e5152, 0xa831c66d, 0xb00327c8, 0xbf597fc7,
        0xc6e00bf3, 0xd5a79147, 0x06ca6351, 0x14292967, 0x27b70a85, 0x2e1b2138, 0x4d2c6dfc,
        0x53380d13, 0x650a7354, 0x766a0abb, 0x81c2c92e, 0x92722c85, 0xa2bfe8a1, 0xa81a664b,
        0xc24b8b70, 0xc76c51a3, 0xd192e819, 0xd6990624, 0xf40e3585, 0x106aa070, 0x19a4c116,
        0x1e376c08, 0x2748774c, 0x34b0bcb5, 0x391c0cb3, 0x4ed8aa4a, 0x5b9cca4f, 0x682e6ff3,
        0x748f82ee, 0x78a5636f, 0x84c87814, 0x8cc70208, 0x90befffa, 0xa4506ceb, 0xbef9a3f7,
        0xc67178f2,
    ]
}

/// The initial hash value of SHA-256.
pub open spec fn sha256_h0() -> Seq<u32> {
    seq![
        0x6a09e667u32, 0xbb67ae85, 0x3c6ef372, 0xa54ff53a, 0x510e527f, 0x9b05688c, 0x1f83d9ab,
        0x5be0cd19,
    ]
}

/// Rotates a word right by `n` bits (`0 < n < 32`).
pub open spec fn rotr(x: u32, n: u32) -> u32 {
    (x >> n) | (x << ((32 - n) as u32))
}

pub open spec fn ch(x: u32, y: u32, z: u32) -> u32 {
    (x & y) ^ (!x & z)
}

pub open spec fn maj(x: u32, y: u32, z: u32) -> u32 {
    (x & y) ^ (x & z) ^ (y & z)
}

pub open spec fn big_sigma0(x: u32) -> u32 {
    rotr(x, 2) ^ rotr(x, 13) ^ rotr(x, 22)
}

pub open spec fn big_sigma1(x: u32) -> u32 {
    rotr(x, 6) ^ rotr(x, 11) ^ rotr(x, 25)
}

pub open spec fn small_sigma0(x: u32) -> u32 {
    rotr(x, 7) ^ rotr(x, 18) ^ (x >> 3)
}

pub open spec fn small_sigma1(x: u32) -> u32 {
    rotr(x, 17) ^ rotr(x, 19) ^ (x >> 10)
}

/// The big-endian word at word index `i` of `block`.
pub open spec fn be_word(block: Seq<u8>, i: int) -> u32 {
    ((block[4 * i] as u32) << 24u32) | ((block[4 * i + 1] as u32) << 16u32) | ((block[4 * i
        + 2] as u32) << 8u32) | (block[4 * i + 3] as u32)
}

/// Word `t` of the message schedule of a 64-byte block.
pub open spec fn schedule(block: Seq<u8>, t: nat) -> u32
    decreases t,
{
    if t < 16 {
        be_word(block, t as int)
    } else {
        small_sigma1(schedule(block, (t - 2) as nat)).wrapping_add(
            schedule(block, (t - 7) as nat),
        ).wrapping_add(small_sigma0(schedule(block, (t - 15) as nat))).wrapping_add(
            schedule(block, (t - 16) as nat),
        )
    }
}

/// One round of the compression function on the working variables `a..h`.
pub open spec fn round(s: Seq<u32>, k: u32, w: u32) -> Seq<u32> {
    let t1 = s[7].wrapping_add(big_sigma1(s[4])).wrapping_add(ch(s[4], s[5], s[6])).wrapping_add(
        k,
    ).wrapping_add(w);
    let t2 = big_sigma0(s[0]).wrapping_add(maj(s[0], s[1], s[2]));
    seq![t1.wrapping_add(t2), s[0], s[1], s[2], s[3].wrapping_add(t1), s[4], s[5], s[6]]
}

/// The working variables after the first `t` rounds on `block`, starting from `h`.
pub open spec fn rounds(h: Seq<u32>, block: Seq<u8>, t: nat) -> Seq<u32>
    decreases t,
{
    if t == 0 {
        h
    } else {
        round(
            rounds(h, block, (t - 1) as nat),
            sha256_k()[t - 1],
            schedule(block, (t - 1) as nat),
        )
    }
}

/// The compression function: the hash value after one 64-byte block.
pub open spec fn compress(h: Seq<u32>, block: Seq<u8>) -> Seq<u32> {
    let r = rounds(h, block, 64);
    Seq::new(8, |i: int| h[i].wrapping_add(r[i]))
}

/// The hash value after the first `n` 64-byte blocks of `data`, starting from `h`.
pub open spec fn hash_blocks(h: Seq<u32>, data: Seq<u8>, n: nat) -> Seq<u32>
    decreases n,
{
    if n == 0 {
        h
    } else {
        compress(
            hash_blocks(h, data, (n - 1) as nat),
            data.subrange(64 * (n - 1), 64 * (n as int)),
        )
    }
}

/// How many zero bytes follow the `0x80` byte when padding a message of `n` bytes.
pub open spec fn pad_zeros(n: nat) -> nat {
    ((64 - (n + 9) % 64) % 64) as nat
}

/// The message length in bits, as the final 64-bit field records it.
pub open spec fn bit_length(n: nat) -> u64 {
    ((n * 8) % 0x1_0000_0000_0000_0000) as u64
}

/// The eight big-endian bytes of `v`.
pub open spec fn be_u64(v: u64) -> Seq<u8> {
    seq![
        (v >> 56u64) as u8,
        (v >> 48u64) as u8,
        (v >> 40u64) as u8,
        (v >> 32u64) as u8,
        (v >> 24u64) as u8,
        (v >> 16u64) as u8,
        (v >> 8u64) as u8,
        v as u8,
    ]
}

/// The bytes appended to a message of `n` bytes before hashing.
pub open spec fn padding(n: nat) -> Seq<u8> {
    seq![0x80u8] + Seq::new(pad_zeros(n), |i: int| 0u8) + be_u64(bit_length(n))
}

/// Byte `j` (0 to 3) of a big-endian word.
pub open spec fn word_byte(w: u32, j: int) -> u8 {
    if j == 0 {
        (w >> 24u32) as u8
    } else if j == 1 {
        (w >> 16u32) as u8
    } else if j == 2 {
        (w >> 8u32) as u8
    } else {
        w as u8
    }
}

/// The 32 digest bytes of a final hash value.
pub open spec fn digest_bytes(h: Seq<u32>) -> Seq<u8> {
    Seq::new(32, |i: int| word_byte(h[i / 4], i % 4))
}

/// The SHA-256 digest of `data`.
pub open spec fn spec_sha256(data: Seq<u8>) -> Seq<u8> {
    let p = data + padding(data.len());
    digest_bytes(hash_blocks(sha256_h0(), p, p.len() / 64))
}

proof fn lemma_padded_len(n: nat)
    ensures
        (n + padding(n).len()) % 64 == 0,
        padding(n).len() == 9 + pad_zeros(n),
{
    let p = padding(n);
    assert(p.len() == 1 + pad_zeros(n) + 8);
    let r = (n + 9) % 64;
    assert(n + 9 == 64 * ((n + 9) / 64) + r);
    if r == 0 {
        assert(pad_zeros(n) == 0);
    } else {
        assert(pad_zeros(n) == 64 - r);
        assert(n + 9 + 64 - r == 64 * ((n + 9) / 64 + 1));
    }
}

/// The hash of the first `n` blocks depends only on those blocks.
proof fn lemma_hash_blocks_prefix(h: Seq<u32>, a: Seq<u8>, b: Seq<u8>, n: nat)
    requires
        64 * (n as int) <= a.len(),
        64 * (n as int) <= b.len(),
        a.take(64 * (n as int)) == b.take(64 * (n as int)),
    ensures
        hash_blocks(h, a, n) == hash_blocks(h, b, n),
    decreases n,
{
    if n > 0 {
        assert(a.take(64 * (n - 1)) =~= a.take(64 * (n as int)).take(64 * (n - 1)));
        assert(b.take(64 * (n - 1)) =~= b.take(64 * (n as int)).take(64 * (n - 1)));
        lemma_hash_blocks_prefix(h, a, b, (n - 1) as nat);
        assert(a.subrange(64 * (n - 1), 64 * (n as int)) =~= a.take(64 * (n as int)).subrange(
            64 * (n - 1),
            64 * (n as int),
        ));
        assert(b.subrange(64 * (n - 1), 64 * (n as int)) =~= b.take(64 * (n as int)).subrange(
            64 * (n - 1),
            64 * (n as int),
        ));
    }
}

fn rotr_exec(x: u32, n: u32) -> (r: u32)
    requires
        0 < n < 32,
    ensures
        r == rotr(x, n),
{
    (x >> n) | (x << (32 - n))
}

fn round_constant(t: usize) -> (k: u32)
    requires
        t < 64,
    ensures
        k == sha256_k()[t as int],
{
    let ks: [u32; 64] = [
        0x428a2f98u32, 0x71374491, 0xb5c0fbcf, 0xe9b5dba5, 0x3956c25b, 0x59f111f1, 0x923f82a4,
        0xab1c5ed5, 0xd807aa98, 0x12835b01, 0x243185be, 0x550c7dc3, 0x72be5d74, 0x80deb1fe,
        0x9bdc06a7, 0xc19bf174, 0xe49b69c1, 0xefbe4786, 0x0fc19dc6, 0x240ca1cc, 0x2de92c6f,
        0x4a7484aa, 0x5cb0a9dc, 0x76f988da, 0x983e5152, 0xa831c66d, 0xb00327c8, 0xbf597fc7,
        0xc6e00bf3, 0xd5a79147, 0x06ca6351, 0x14292967, 0x27b70a85, 0x2e1b2138, 0x4d2c6dfc,
        0x53380d13, 0x650a7354, 0x766a0abb, 0x81c2c92e, 0x92722c85, 0xa2bfe8a1, 0xa81a664b,
        0xc24b8b70, 0xc76c51a3, 0xd192e819, 0xd6990624, 0xf40e3585, 0x106aa070, 0x19a4c116,
        0x1e376c08, 0x2748774c, 0x34b0bcb5, 0x391c0cb3, 0x4ed8aa4a, 0x5b9cca4f, 0x682e6ff3,
        0x748f82ee, 0x78a5636f, 0x84c87814, 0x8cc70208, 0x90befffa, 0xa4506ceb, 0xbef9a3f7,
        0xc67178f2,
    ];
    assert(ks@ =~= sha256_k());
    ks[t]
}

fn initial_hash() -> (h: [u32; 8])
    ensures
        h@ == sha256_h0(),
{
    let h: [u32; 8] = [
        0x6a09e667u32, 0xbb67ae85, 0x3c6ef372, 0xa54ff53a, 0x510e527f, 0x9b05688c, 0x1f83d9ab,
        0x5be0cd19,
    ];
    assert(h@ =~= sha256_h0());
    h
}

/// Runs the compression function on one 64-byte block.
fn compress_block(h: &[u32; 8], block: &[u8; 64]) -> (r: [u32; 8])
    ensures
        r@ == compress(h@, block@),
{
    let mut w: [u32; 64] = [0u32; 64];
    let mut t: usize = 0;
    while t < 64
        invariant
            t <= 64,
            forall|j: int| 0 <= j < t ==> w@[j] == schedule(block@, j as nat),
        decreases 64 - t,
    {
        let v = if t < 16 {
            ((block[4 * t] as u32) << 24u32) | ((block[4 * t + 1] as u32) << 16u32) | ((block[4
                * t + 2] as u32) << 8u32) | (block[4 * t + 3] as u32)
        } else {
            let x = w[t - 2];
            let y = w[t - 15];
            let s1 = rotr_exec(x, 17) ^ rotr_exec(x, 19) ^ (x >> 10u32);
            let s0 = rotr_exec(y, 7) ^ rotr_exec(y, 18) ^ (y >> 3u32);
            s1.wrapping_add(w[t - 7]).wrapping_add(s0).wrapping_add(w[t - 16])
        };
        w[t] = v;
        t = t + 1;
    }
    let mut a = h[0];
    let mut b = h[1];
    let mut c = h[2];
    let mut d = h[3];
    let mut e = h[4];
    let mut f = h[5];
    let mut g = h[6];
    let mut hh = h[7];
    let mut t: usize = 0;
    assert(seq![a, b, c, d, e, f, g, hh] =~= rounds(h@, block@, 0));
    while t < 64
        invariant
            t <= 64,
            forall|j: int| 0 <= j < 64 ==> w@[j] == schedule(block@, j as nat),
            seq![a, b, c, d, e, f, g, hh] == rounds(h@, block@, t as nat),
        decreases 64 - t,
    {
        let s1 = rotr_exec(e, 6) ^ rotr_exec(e, 11) ^ rotr_exec(e, 25);
        let chv = (e & f) ^ (!e & g);
        let t1 = hh.wrapping_add(s1).wrapping_add(chv).wrapping_add(round_constant(t)).wrapping_add(
            w[t],
        );
        let s0 = rotr_exec(a, 2) ^ rotr_exec(a, 13) ^ rotr_exec(a, 22);
        let mj = (a & b) ^ (a & c) ^ (b & c);
        let t2 = s0.wrapping_add(mj);
        let ghost prev = seq![a, b, c, d, e, f, g, hh];
        hh = g;
        g = f;
        f = e;
        e = d.wrapping_add(t1);
        d = c;
        c = b;
        b = a;
        a = t1.wrapping_add(t2);
        assert(seq![a, b, c, d, e, f, g, hh] =~= round(
            prev,
            sha256_k()[t as int],
            schedule(block@, t as nat),
        ));
        t = t + 1;
    }
    let r: [u32; 8] = [
        h[0].wrapping_add(a),
        h[1].wrapping_add(b),
        h[2].wrapping_add(c),
        h[3].wrapping_add(d),
        h[4].wrapping_add(e),
        h[5].wrapping_add(f),
        h[6].wrapping_add(g),
        h[7].wrapping_add(hh),
    ];
    assert(r@ =~= compress(h@, block@));
    r
}

/// Computes the SHA-256 digest of a byte slice in a single call.
pub fn sha256(data: &[u8]) -> (r: [u8; 32])
    ensures
        r@ == spec_sha256(data@),
{
    let mut hasher = Sha256::new();
    hasher.update(data);
    hasher.finish()
}

/// Stateful, incremental SHA-256 hasher.
pub struct Sha256 {
    state: [u32; 8],
    block: [u8; 64],
    buffered: usize,
    count: u64,
    consumed: Ghost<Seq<u8>>,
}

impl Sha256 {
    #[verifier::type_invariant]
    spec fn state_matches_input(self) -> bool {
        let full = self.consumed@.len() - self.buffered;
        &&& self.buffered < 64
        &&& full >= 0
        &&& full % 64 == 0
        &&& self.block@.take(self.buffered as int) == self.consumed@.skip(full)
        &&& self.state@ == hash_blocks(sha256_h0(), self.consumed@, (full / 64) as nat)
        &&& self.count == self.consumed@.len() % 0x1_0000_0000_0000_0000
    }

    /// Everything fed into the hasher so far.
    pub closed spec fn consumed(self) -> Seq<u8> {
        self.consumed@
    }

    /// Creates a new SHA-256 hasher that has consumed nothing.
    pub fn new() -> (r: Self)
        ensures
            r.consumed() == Seq::<u8>::empty(),
    {
        let block = [0u8; 64];
        assert(block@.take(0) =~= Seq::<u8>::empty().skip(0));
        Sha256 {
            state: initial_hash(),
            block,
            buffered: 0,
            count: 0,
            consumed: Ghost(Seq::empty()),
        }
    }

    /// Feeds more data into the digest; may be called with zero or more chunks.
    pub fn update(&mut self, data: &[u8])
        ensures
            final(self).consumed() == old(self).consumed() + data@,
    {
        proof {
            use_type_invariant(&*self);
        }
        let mut state = self.state;
        let mut block = self.block;
        let mut buffered = self.buffered;
        let mut count = self.count;
        let ghost start = self.consumed@;
        let mut i: usize = 0;
        while i < data.len()
            invariant
                i <= data@.len(),
                ({
                    let seen = start + data@.take(i as int);
                    let full = seen.len() - buffered;
                    &&& buffered < 64
                    &&& full >= 0
                    &&& full % 64 == 0
                    &&& block@.take(buffered as int) == seen.skip(full)
                    &&& state@ == hash_blocks(sha256_h0(), seen, (full / 64) as nat)
                    &&& count == seen.len() % 0x1_0000_0000_0000_0000
                }),
            decreases data@.len() - i,
        {
            let ghost seen = start + data@.take(i as int);
            let ghost next = start + data@.take(i + 1);
            let ghost full = seen.len() - buffered;
            assert(next =~= seen.push(data@[i as int]));
            let ghost before = block@;
            block[buffered] = data[i];
            buffered = buffered + 1;
            count = count.wrapping_add(1);
            assert forall|k: int| 0 <= k < buffered implies #[trigger] block@[k] == next.skip(
                full,
            )[k] by {
                if k < buffered - 1 {
                    assert(before.take(buffered - 1)[k] == seen.skip(full)[k]);
                }
            }
            assert(block@.take(buffered as int) =~= next.skip(full));
            proof {
                vstd::arithmetic::div_mod::lemma_fundamental_div_mod(full, 64);
                assert(seen.take(full) =~= next.take(full));
                lemma_hash_blocks_prefix(sha256_h0(), seen, next, (full / 64) as nat);
            }
            if buffered == 64 {
                proof {
                    assert(block@.take(64) =~= block@);
                    assert(next.subrange(full, full + 64) =~= next.skip(full));
                }
                state = compress_block(&state, &block);
                buffered = 0;
                assert(block@.take(0) =~= next.skip(next.len() as int));
            }
            i = i + 1;
        }
        assert(data@.take(data@.len() as int) =~= data@);
        *self = Sha256 { state, block, buffered, count, consumed: Ghost(start + data@) };
    }

    /// Returns the SHA-256 digest of everything fed so far.
    pub fn finish(self) -> (r: [u8; 32])
        ensures
            r@ == spec_sha256(self.consumed()),
    {
        proof {
            use_type_invariant(&self);
        }
        let ghost msg = self.consumed@;
        let bits = self.count.wrapping_mul(8);
        proof {
            vstd::arithmetic::div_mod::lemma_mul_mod_noop_left(
                msg.len() as int,
                8,
                0x1_0000_0000_0000_0000,
            );
            assert(bits == bit_length(msg.len()));
        }
        let tail = (self.buffered + 9) % 64;
        let zeros = if tail == 0 {
            0
        } else {
            64 - tail
        };
        let mut pad: Vec<u8> = Vec::new();
        pad.push(0x80u8);
        let mut k: usize = 0;
        while k < zeros
            invariant
                k <= zeros,
                pad@ == seq![0x80u8] + Seq::new(k as nat, |i: int| 0u8),
            decreases zeros - k,
        {
            pad.push(0u8);
            k = k + 1;
            assert(pad@ =~= seq![0x80u8] + Seq::new(k as nat, |i: int| 0u8));
        }
        pad.push((bits >> 56u64) as u8);
        pad.push((bits >> 48u64) as u8);
        pad.push((bits >> 40u64) as u8);
        pad.push((bits >> 32u64) as u8);
        pad.push((bits >> 24u64) as u8);
        pad.push((bits >> 16u64) as u8);
        pad.push((bits >> 8u64) as u8);
        pad.push(bits as u8);
        proof {
            let full = msg.len() - self.buffered;
            assert((msg.len() + 9) % 64 == (self.buffered + 9) % 64) by {
                assert(msg.len() + 9 == full + (self.buffered + 9));
                vstd::arithmetic::div_mod::lemma_mod_add_multiples_vanish(
                    (self.buffered + 9) as int,
                    64,
                );
                assert(full == 64 * (full / 64));
                vstd::arithmetic::div_mod::lemma_mod_multiples_vanish(
                    full / 64,
                    (self.buffered + 9) as int,
                    64,
                );
            }
            assert(zeros == pad_zeros(msg.len()));
            assert(pad@ =~= padding(msg.len()));
            lemma_padded_len(msg.len());
        }
        let mut hasher = self;
        hasher.update(pad.as_slice());
        proof {
            use_type_invariant(&hasher);
        }
        let ghost p = hasher.consumed@;
        assert(p == msg + padding(msg.len()));
        assert(hasher.buffered == 0) by {
            let full = p.len() - hasher.buffered;
            assert(p.len() % 64 == 0);
            assert(full % 64 == 0);
        }
        let h = hasher.state;
        let mut out: [u8; 32] = [0u8; 32];
        let mut j: usize = 0;
        while j < 8
            invariant
                j <= 8,
                forall|i: int| 0 <= i < 4 * j ==> out@[i] == digest_bytes(h@)[i],
            decreases 8 - j,
        {
            let word = h[j];
            out[4 * j] = (word >> 24u32) as u8;
            out[4 * j + 1] = (word >> 16u32) as u8;
            out[4 * j + 2] = (word >> 8u32) as u8;
            out[4 * j + 3] = word as u8;
            j = j + 1;
        }
        assert(out@ =~= digest_bytes(h@));
        out
    }
}

impl Default for Sha256 {
    fn default() -> (r: Self)
        ensures
            r.consumed() == Seq::<u8>::empty(),
    {
        Sha256::new()
    }
}

} // verus!
