//! Typed representation of the raw five-byte `LZMA` properties header.
//!
//! The first byte packs `(pb * 5 + lp) * 9 + lc`; the next four bytes hold the dictionary
//! size in little-endian order.

use vstd::prelude::*;

use crate::error::{invalid_option, is_invalid_option, Error};
use crate::lzma::options::{LiteralContextBits, LiteralPosBits, PosBits, MIN_DICT_SIZE};

verus! {

/// Number of bytes in the encoded raw-LZMA properties header.
pub const LZMA_PROPS_SIZE: usize = 5;

/// Number of distinct values the packed `lc`/`lp`/`pb` byte can take (`9 * 5 * 5`).
pub const PACKED_PROPS_LIMIT: u8 = 225;

/// Abstract contents of [`Props`].
pub struct PropsModel {
    pub lc: u32,
    pub lp: u32,
    pub pb: u32,
    pub dict_size: u32,
}

/// Typed representation of the five-byte raw `LZMA` properties blob.
#[derive(Debug, Clone, Copy, PartialEq, Eq)]
pub struct Props {
    lc: LiteralContextBits,
    lp: LiteralPosBits,
    pb: PosBits,
    dict_size: u32,
}

impl View for Props {
    type V = PropsModel;

    closed spec fn view(&self) -> PropsModel {
        PropsModel {
            lc: self.lc.value(),
            lp: self.lp.value(),
            pb: self.pb.value(),
            dict_size: self.dict_size,
        }
    }
}

/// The value of four bytes read in little-endian order.
pub open spec fn le_u32(b0: u8, b1: u8, b2: u8, b3: u8) -> int {
    b0 + 256 * b1 + 65536 * b2 + 16777216 * b3
}

/// The packed `lc`/`lp`/`pb` byte.
pub open spec fn packed_props(lc: u32, lp: u32, pb: u32) -> int {
    (pb * 5 + lp) * 9 + lc
}

/// The five bytes that encode `m`.
pub open spec fn spec_encode(m: PropsModel) -> Seq<u8> {
    seq![
        packed_props(m.lc, m.lp, m.pb) as u8,
        (m.dict_size % 256) as u8,
        (m.dict_size / 256 % 256) as u8,
        (m.dict_size / 65536 % 256) as u8,
        (m.dict_size / 16777216) as u8,
    ]
}

/// What the five bytes `b` decode to: `None` when the packed byte is out of range; a stored
/// dictionary size below [`MIN_DICT_SIZE`] reads as [`MIN_DICT_SIZE`].
pub open spec fn spec_decode(b: Seq<u8>) -> Option<PropsModel>
    recommends
        b.len() == LZMA_PROPS_SIZE,
{
    if b[0] >= PACKED_PROPS_LIMIT {
        None
    } else {
        let stored = le_u32(b[1], b[2], b[3], b[4]);
        Some(
            PropsModel {
                lc: (b[0] % 9) as u32,
                lp: (b[0] / 9 % 5) as u32,
                pb: (b[0] / 45) as u32,
                dict_size: if stored < MIN_DICT_SIZE {
                    MIN_DICT_SIZE
                } else {
                    stored as u32
                },
            },
        )
    }
}

/// Unpacking a packed byte below 225 gives values in range that pack back to it.
proof fn lemma_unpack(d: u8)
    requires
        d < PACKED_PROPS_LIMIT,
    ensures
        d % 9 <= 8,
        d / 9 % 5 <= 4,
        d / 45 <= 4,
        packed_props((d % 9) as u32, (d / 9 % 5) as u32, (d / 45) as u32) == d,
{
    assert(d / 9 % 5 + 5 * (d / 45) == d / 9) by (nonlinear_arith)
        requires
            d < 225,
    ;
    assert(d % 9 + 9 * (d / 9) == d) by (nonlinear_arith);
    assert(d / 45 <= 4) by (nonlinear_arith)
        requires
            d < 225,
    ;
}

/// Packing values in range and unpacking again gives the values back.
proof fn lemma_pack(lc: u32, lp: u32, pb: u32)
    requires
        lc <= 8,
        lp <= 4,
        pb <= 4,
    ensures
        0 <= packed_props(lc, lp, pb) < 225,
        packed_props(lc, lp, pb) % 9 == lc,
        packed_props(lc, lp, pb) / 9 % 5 == lp,
        packed_props(lc, lp, pb) / 45 == pb,
{
    let p = packed_props(lc, lp, pb);
    assert(0 <= p < 225 && p % 9 == lc && p / 9 == pb * 5 + lp) by (nonlinear_arith)
        requires
            lc <= 8,
            lp <= 4,
            pb <= 4,
            p == (pb * 5 + lp) * 9 + lc,
    ;
    assert((pb * 5 + lp) % 5 == lp && (pb * 5 + lp) / 5 == pb) by (nonlinear_arith)
        requires
            lp <= 4,
    ;
    assert(p / 45 == (p / 9) / 5) by (nonlinear_arith)
        requires
            p >= 0,
    ;
}

/// Splitting a value into little-endian bytes and reading them back gives the value.
pub proof fn lemma_le_split(x: u32)
    ensures
        le_u32((x % 256) as u8, (x / 256 % 256) as u8, (x / 65536 % 256) as u8, (x / 16777216) as u8)
            == x,
{
    assert(x % 256 + 256 * (x / 256 % 256) + 65536 * (x / 65536 % 256) + 16777216 * (x
        / 16777216) == x) by (nonlinear_arith);
}

/// Reading four bytes as a little-endian value and splitting it again gives the bytes.
pub proof fn lemma_le_join(b0: u8, b1: u8, b2: u8, b3: u8)
    ensures
        0 <= le_u32(b0, b1, b2, b3) <= u32::MAX,
        le_u32(b0, b1, b2, b3) % 256 == b0,
        le_u32(b0, b1, b2, b3) / 256 % 256 == b1,
        le_u32(b0, b1, b2, b3) / 65536 % 256 == b2,
        le_u32(b0, b1, b2, b3) / 16777216 == b3,
{
    let x = le_u32(b0, b1, b2, b3);
    assert(0 <= x <= u32::MAX && x % 256 == b0 && x / 256 % 256 == b1 && x / 65536 % 256 == b2
        && x / 16777216 == b3) by (nonlinear_arith)
        requires
            x == b0 + 256 * b1 + 65536 * b2 + 16777216 * b3,
            0 <= b0 < 256,
            0 <= b1 < 256,
            0 <= b2 < 256,
            0 <= b3 < 256,
    ;
}

/// Encoding a property set whose values are in range and decoding the five bytes gives the
/// same set back.
pub proof fn lemma_props_round_trip(m: PropsModel)
    requires
        Props::model_in_range(m),
    ensures
        spec_decode(spec_encode(m)) == Some(m),
{
    lemma_pack(m.lc, m.lp, m.pb);
    lemma_le_split(m.dict_size);
    let b = spec_encode(m);
    assert(le_u32(b[1], b[2], b[3], b[4]) == m.dict_size);
}

/// Five bytes whose packed byte is in range and whose stored dictionary size is at least
/// [`MIN_DICT_SIZE`] decode to a property set that encodes back to the same bytes.
pub proof fn lemma_bytes_round_trip(b: Seq<u8>)
    requires
        b.len() == LZMA_PROPS_SIZE,
        b[0] < PACKED_PROPS_LIMIT,
        le_u32(b[1], b[2], b[3], b[4]) >= MIN_DICT_SIZE,
    ensures
        spec_decode(b) matches Some(m) && Props::model_in_range(m) && spec_encode(m) == b,
{
    lemma_unpack(b[0]);
    lemma_le_join(b[1], b[2], b[3], b[4]);
    let m = spec_decode(b)->0;
    assert(spec_encode(m) =~= b);
}

impl Props {
    #[verifier::type_invariant]
    spec fn dictionary_large_enough(self) -> bool {
        self.dict_size >= MIN_DICT_SIZE
    }

    /// Every property value lies in its documented range.
    pub open spec fn model_in_range(m: PropsModel) -> bool {
        &&& m.lc <= 8
        &&& m.lp <= 4
        &&& m.pb <= 4
        &&& m.dict_size >= MIN_DICT_SIZE
    }

    /// Creates a typed raw `LZMA` properties value; dictionaries smaller than
    /// [`MIN_DICT_SIZE`] are rejected.
    pub fn new(lc: LiteralContextBits, lp: LiteralPosBits, pb: PosBits, dict_size: u32) -> (r:
        Result<Self, Error>)
        ensures
            r is Ok <==> dict_size >= MIN_DICT_SIZE,
            r matches Ok(p) ==> p@ == (PropsModel {
                lc: lc.value(),
                lp: lp.value(),
                pb: pb.value(),
                dict_size,
            }),
            r matches Err(e) ==> is_invalid_option(e, "dict_size"@, "expected at least 4096 bytes"@),
    {
        if dict_size < MIN_DICT_SIZE {
            return Err(
                invalid_option(
                    String::from_str("dict_size"),
                    String::from_str("expected at least 4096 bytes"),
                ),
            );
        }
        Ok(Props { lc, lp, pb, dict_size })
    }

    /// Decodes the five-byte raw property block; a packed `lc`/`lp`/`pb` byte of 225 or more
    /// is unsupported.
    pub fn decode(encoded: &[u8; LZMA_PROPS_SIZE]) -> (r: Result<Self, Error>)
        ensures
            r is Ok <==> encoded@[0] < PACKED_PROPS_LIMIT,
            r matches Ok(p) ==> spec_decode(encoded@) == Some(p@),
            r matches Err(e) ==> e == Error::Unsupported,
            r matches Ok(p) ==> (le_u32(encoded@[1], encoded@[2], encoded@[3], encoded@[4])
                >= MIN_DICT_SIZE ==> spec_encode(p@) == encoded@),
    {
        let d = encoded[0];
        if d >= PACKED_PROPS_LIMIT {
            return Err(Error::Unsupported);
        }
        proof {
            lemma_unpack(d);
            lemma_le_join(encoded@[1], encoded@[2], encoded@[3], encoded@[4]);
        }
        let stored: u32 = (encoded[1] as u32) + 256 * (encoded[2] as u32) + 65536 * (
        encoded[3] as u32) + 16777216 * (encoded[4] as u32);
        let dict_size: u32 = if stored < MIN_DICT_SIZE {
            MIN_DICT_SIZE
        } else {
            stored
        };
        let lc_raw: u32 = (d % 9) as u32;
        let lp_raw: u32 = (d / 9 % 5) as u32;
        let pb_raw: u32 = (d / 45) as u32;
        let lc = match LiteralContextBits::new(lc_raw) {
            Ok(v) => v,
            Err(e) => return Err(e),
        };
        let lp = match LiteralPosBits::new(lp_raw) {
            Ok(v) => v,
            Err(e) => return Err(e),
        };
        let pb = match PosBits::new(pb_raw) {
            Ok(v) => v,
            Err(e) => return Err(e),
        };
        let r = Props::new(lc, lp, pb, dict_size);
        proof {
            let b = encoded@;
            if stored >= MIN_DICT_SIZE {
                assert(spec_encode(r->Ok_0@) =~= b);
            }
        }
        r
    }

    /// Encodes the typed properties into the five-byte raw SDK representation.
    pub fn encode(self) -> (r: [u8; LZMA_PROPS_SIZE])
        ensures
            r@ == spec_encode(self@),
            Self::model_in_range(self@),
            spec_decode(r@) == Some(self@),
    {
        proof {
            use_type_invariant(&self);
        }
        let lc = self.lc.get();
        let lp = self.lp.get();
        let pb = self.pb.get();
        proof {
            lemma_pack(lc, lp, pb);
        }
        let first: u8 = ((pb * 5 + lp) * 9 + lc) as u8;
        let d = self.dict_size;
        let r: [u8; LZMA_PROPS_SIZE] = [
            first,
            (d % 256) as u8,
            (d / 256 % 256) as u8,
            (d / 65536 % 256) as u8,
            (d / 16777216) as u8,
        ];
        proof {
            assert(r@ =~= spec_encode(self@));
            lemma_pack(lc, lp, pb);
            lemma_le_split(d);
        }
        r
    }

    /// Returns the literal context bits (`lc`) stored in the header.
    pub fn lc(self) -> (r: LiteralContextBits)
        ensures
            r.value() == self@.lc,
    {
        self.lc
    }

    /// Returns the literal position bits (`lp`) stored in the header.
    pub fn lp(self) -> (r: LiteralPosBits)
        ensures
            r.value() == self@.lp,
    {
        self.lp
    }

    /// Returns the position bits (`pb`) stored in the header.
    pub fn pb(self) -> (r: PosBits)
        ensures
            r.value() == self@.pb,
    {
        self.pb
    }

    /// Returns the configured dictionary size in bytes.
    pub fn dict_size(self) -> (r: u32)
        ensures
            r == self@.dict_size,
            r >= MIN_DICT_SIZE,
    {
        proof {
            use_type_invariant(&self);
        }
        self.dict_size
    }
}

} // verus!
