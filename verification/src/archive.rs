//! Read-only `.7z` archive support: the entry table built from the archive database, entry
//! lookup, the checks before an extraction, and the solid-block cache bookkeeping.
//!
//! The database itself is read and decompressed by the SDK; [`ArchiveDb`] holds, as plain
//! values, the parts of it the entry table is built from.

use vstd::prelude::*;

use crate::error::{status_error, Error};

verus! {

/// Sentinel value indicating an empty solid block cache.
pub const SOLID_CACHE_EMPTY: u32 = u32::MAX;

/// Metadata for a file or directory stored in a `.7z` archive.
#[derive(Debug, Clone, PartialEq, Eq)]
pub struct ArchiveEntry {
    /// Zero-based index used by the SDK extraction routines.
    pub index: u32,
    /// UTF-8 file name decoded from the archive header.
    pub name: String,
    /// Whether the entry is a directory.
    pub is_dir: bool,
    /// Uncompressed size reported by the archive metadata.
    pub unpacked_size: u64,
    /// Optional platform attributes if present in the archive.
    pub attributes: Option<u32>,
    /// Optional NTFS creation timestamp encoded as a raw 64-bit value.
    pub created_time: Option<u64>,
    /// Optional NTFS modification timestamp encoded as a raw 64-bit value.
    pub modified_time: Option<u64>,
}

/// A 64-bit NTFS timestamp stored as two 32-bit halves.
#[derive(Debug, Clone, Copy, PartialEq, Eq)]
pub struct NtfsFileTime {
    /// Low 32 bits.
    pub low: u32,
    /// High 32 bits.
    pub high: u32,
}

/// Per-entry optional `u32` values: a bit per entry (most significant bit first) says whether
/// the entry has a value.
#[derive(Debug, Clone, PartialEq, Eq)]
pub struct BitU32s {
    /// Definition bits, if the archive stores any.
    pub defs: Option<Vec<u8>>,
    /// Values, if the archive stores any.
    pub vals: Option<Vec<u32>>,
}

/// Per-entry optional timestamps: a bit per entry says whether the entry has one.
#[derive(Debug, Clone, PartialEq, Eq)]
pub struct BitTimes {
    /// Definition bits, if the archive stores any.
    pub defs: Option<Vec<u8>>,
    /// Values, if the archive stores any.
    pub vals: Option<Vec<NtfsFileTime>>,
}

/// The parts of an opened archive's database the entry table is built from.
#[derive(Debug, Clone, PartialEq, Eq)]
pub struct ArchiveDb {
    /// Number of entries.
    pub num_files: u32,
    /// Directory bits, if the archive stores any.
    pub is_dirs: Option<Vec<u8>>,
    /// Start offsets of the entries in the unpacked stream, one more than there are entries.
    pub unpack_positions: Vec<u64>,
    /// Platform attributes.
    pub attribs: BitU32s,
    /// Creation times.
    pub ctime: BitTimes,
    /// Modification times.
    pub mtime: BitTimes,
    /// Each entry's name as the SDK writes it: UTF-16 units ending with a terminator.
    pub names: Vec<Vec<u16>>,
}

/// Whether bit `index` (most significant bit of each byte first) is set in `bits`.
pub open spec fn spec_bit(bits: Seq<u8>, index: int) -> bool {
    bits[index / 8] & (0x80u8 >> ((index % 8) as u8)) != 0
}

/// `bits` has a bit for entry `index`.
pub open spec fn covers(bits: Option<Vec<u8>>, index: int) -> bool {
    bits matches Some(b) ==> index / 8 < b@.len()
}

/// Whether the flag of entry `index` is set; there are no flags when `bits` is absent.
pub open spec fn spec_bit_is_set(bits: Option<Vec<u8>>, index: int) -> bool {
    match bits {
        None => false,
        Some(b) => spec_bit(b@, index),
    }
}

proof fn lemma_msb_first(x: u8, j: u8)
    requires
        j < 8,
    ensures
        (x & (0x80u8 >> j) != 0) == ((x >> ((7u8 - j) as u8)) & 1u8 == 1u8),
{
    assert((x & (0x80u8 >> j) != 0) == ((x >> ((7u8 - j) as u8)) & 1u8 == 1u8)) by (bit_vector)
        requires
            j < 8,
    ;
}

/// Flags are packed eight to a byte, most significant bit first: the flag of entry `i` is
/// bit `7 - i % 8` of byte `i / 8`, so entries 0 to 7 read byte 0, entries 8 to 15 byte 1,
/// and so on.
pub proof fn lemma_flag_layout(bits: Vec<u8>, i: int)
    requires
        0 <= i < 8 * bits@.len(),
    ensures
        spec_bit_is_set(Some(bits), i) == ((bits@[i / 8] >> ((7 - i % 8) as u8)) & 1u8 == 1u8),
{
    let j = (i % 8) as u8;
    lemma_msb_first(bits@[i / 8], j);
    assert((7 - i % 8) as u8 == (7u8 - j) as u8);
}

/// Checks whether the flag of entry `index` is set; `false` when there are no flags.
pub fn bit_is_set(bits: &Option<Vec<u8>>, index: usize) -> (r: bool)
    requires
        covers(*bits, index as int),
    ensures
        r == spec_bit_is_set(*bits, index as int),
{
    match bits {
        None => false,
        Some(b) => {
            let value = b[index / 8];
            value & (0x80u8 >> ((index % 8) as u8)) != 0
        },
    }
}

/// The value of entry `index` when its bit is set and values are stored.
pub open spec fn spec_bit_u32(values: BitU32s, index: int) -> Option<u32> {
    if !spec_bit_is_set(values.defs, index) || values.vals is None {
        None
    } else {
        Some(values.vals->0@[index])
    }
}

/// Reads the `u32` value of entry `index` if it is defined.
pub fn bit_u32(values: &BitU32s, index: usize) -> (r: Option<u32>)
    requires
        covers(values.defs, index as int),
        values.vals matches Some(v) ==> index < v@.len(),
    ensures
        r == spec_bit_u32(*values, index as int),
{
    if !bit_is_set(&values.defs, index) {
        return None;
    }
    match &values.vals {
        None => None,
        Some(v) => Some(v[index]),
    }
}

/// The 64-bit value of a timestamp.
pub open spec fn ntfs_value(t: NtfsFileTime) -> u64 {
    (t.high as int * 0x1_0000_0000 + t.low as int) as u64
}

/// The timestamp of entry `index` when its bit is set and values are stored.
pub open spec fn spec_bit_time(values: BitTimes, index: int) -> Option<u64> {
    if !spec_bit_is_set(values.defs, index) || values.vals is None {
        None
    } else {
        Some(ntfs_value(values.vals->0@[index]))
    }
}

/// Reads the timestamp of entry `index` if it is defined, combining its halves.
pub fn bit_ntfs_time(values: &BitTimes, index: usize) -> (r: Option<u64>)
    requires
        covers(values.defs, index as int),
        values.vals matches Some(v) ==> index < v@.len(),
    ensures
        r == spec_bit_time(*values, index as int),
{
    if !bit_is_set(&values.defs, index) {
        return None;
    }
    match &values.vals {
        None => None,
        Some(v) => {
            let t = v[index];
            Some((t.high as u64) * 0x1_0000_0000 + (t.low as u64))
        },
    }
}

/// UTF-16 decoding as `char::decode_utf16` defines it, with each unpaired surrogate read as
/// the replacement character U+FFFD: a unit outside the surrogate range is its own code point,
/// a high surrogate followed by a low one forms one supplementary code point, and any other
/// surrogate unit is unpaired.
pub open spec fn utf16_lossy_decode(units: Seq<u16>) -> Seq<char>
    decreases units.len(),
{
    if units.len() == 0 {
        Seq::empty()
    } else {
        let u = units[0];
        if u < 0xD800 || u > 0xDFFF {
            seq![u as char] + utf16_lossy_decode(units.drop_first())
        } else if u <= 0xDBFF && units.len() >= 2 && 0xDC00 <= units[1] && units[1] <= 0xDFFF {
            seq![(0x10000 + (u - 0xD800) * 0x400 + (units[1] - 0xDC00)) as char]
                + utf16_lossy_decode(units.skip(2))
        } else {
            seq![0xFFFDu32 as char] + utf16_lossy_decode(units.drop_first())
        }
    }
}

/// `String::from_utf16_lossy`: decodes UTF-16, replacing each unpaired surrogate with
/// U+FFFD (the documented behaviour of `char::decode_utf16`, whose errors it replaces).
#[verifier::external_body]
fn utf16_lossy(units: &[u16]) -> (r: String)
    ensures
        r@ == utf16_lossy_decode(units@),
{
    String::from_utf16_lossy(units)
}

/// The name an entry gets from the units the SDK wrote: the terminator (the last unit) is
/// dropped and the rest decoded.
pub open spec fn spec_entry_name(units: Seq<u16>) -> Seq<char> {
    utf16_lossy_decode(
        if units.len() == 0 {
            units
        } else {
            units.drop_last()
        },
    )
}

/// Decodes an entry name from the units the SDK wrote.
pub fn entry_name(units: &[u16]) -> (r: String)
    ensures
        r@ == spec_entry_name(units@),
{
    let keep = if units.len() == 0 {
        0
    } else {
        units.len() - 1
    };
    let mut name: Vec<u16> = Vec::new();
    let mut k: usize = 0;
    while k < keep
        invariant
            k <= keep,
            keep <= units@.len(),
            keep == (if units@.len() == 0 { 0 } else { units@.len() - 1 }),
            name@ == units@.take(k as int),
        decreases keep - k,
    {
        name.push(units[k]);
        k = k + 1;
        assert(name@ =~= units@.take(k as int));
    }
    if units.len() == 0 {
        assert(name@ =~= units@);
    } else {
        assert(name@ =~= units@.drop_last());
    }
    utf16_lossy(name.as_slice())
}

/// The database describes every entry: enough unpack positions, names and flag bits.
pub open spec fn db_complete(db: ArchiveDb) -> bool {
    let n = db.num_files as int;
    &&& db.unpack_positions@.len() > n
    &&& db.names@.len() == n
    &&& forall|i: int| 0 <= i < n ==> covers(db.is_dirs, i)
    &&& forall|i: int| 0 <= i < n ==> covers(db.attribs.defs, i)
    &&& forall|i: int| 0 <= i < n ==> covers(db.ctime.defs, i)
    &&& forall|i: int| 0 <= i < n ==> covers(db.mtime.defs, i)
    &&& (db.attribs.vals matches Some(v) ==> n <= v@.len())
    &&& (db.ctime.vals matches Some(v) ==> n <= v@.len())
    &&& (db.mtime.vals matches Some(v) ==> n <= v@.len())
}

/// Every entry's unpacked range is well ordered.
pub open spec fn positions_ordered(db: ArchiveDb) -> bool {
    forall|i: int| 0 <= i < db.num_files ==> #[trigger] db.unpack_positions@[i] <= db.unpack_positions@[i + 1]
}

/// Entry `i` as described by the database.
pub open spec fn spec_entry_matches(db: ArchiveDb, i: int, e: ArchiveEntry) -> bool {
    &&& e.index == i
    &&& e.name@ == spec_entry_name(db.names@[i]@)
    &&& e.is_dir == spec_bit_is_set(db.is_dirs, i)
    &&& e.unpacked_size == db.unpack_positions@[i + 1] - db.unpack_positions@[i]
    &&& e.attributes == spec_bit_u32(db.attribs, i)
    &&& e.created_time == spec_bit_time(db.ctime, i)
    &&& e.modified_time == spec_bit_time(db.mtime, i)
}

/// Builds the entry table from the database: one entry per file, in order. An entry whose
/// unpacked range ends before it starts is [`Error::SizeOverflow`].
pub fn collect_entries(db: &ArchiveDb) -> (r: Result<Vec<ArchiveEntry>, Error>)
    requires
        db_complete(*db),
    ensures
        r is Ok <==> positions_ordered(*db),
        r matches Err(e) ==> e == Error::SizeOverflow,
        r matches Ok(entries) ==> entries@.len() == db.num_files && forall|i: int|
            0 <= i < db.num_files ==> spec_entry_matches(*db, i, #[trigger] entries@[i]),
{
    let num_files = db.num_files as usize;
    let mut entries: Vec<ArchiveEntry> = Vec::new();
    let mut index: usize = 0;
    while index < num_files
        invariant
            index <= num_files,
            num_files == db.num_files,
            db_complete(*db),
            entries@.len() == index,
            forall|i: int| 0 <= i < index ==> #[trigger] db.unpack_positions@[i] <= db.unpack_positions@[i + 1],
            forall|i: int| 0 <= i < index ==> spec_entry_matches(*db, i, #[trigger] entries@[i]),
        decreases num_files - index,
    {
        let start = db.unpack_positions[index];
        let end = db.unpack_positions[index + 1];
        if end < start {
            proof {
                assert(!(db.unpack_positions@[index as int] <= db.unpack_positions@[index + 1]));
            }
            return Err(Error::SizeOverflow);
        }
        let entry = ArchiveEntry {
            index: index as u32,
            name: entry_name(db.names[index].as_slice()),
            is_dir: bit_is_set(&db.is_dirs, index),
            unpacked_size: end - start,
            attributes: bit_u32(&db.attribs, index),
            created_time: bit_ntfs_time(&db.ctime, index),
            modified_time: bit_ntfs_time(&db.mtime, index),
        };
        entries.push(entry);
        index = index + 1;
    }
    Ok(entries)
}

/// Chooses the error for a failed SDK archive call: an I/O error recorded by the reader
/// takes precedence, with `context` naming the operation; otherwise the status code's error.
pub fn sdk_failure(last_error: Option<std::io::ErrorKind>, code: i32, context: &str) -> (r: Error)
    requires
        code != crate::error::SZ_OK,
    ensures
        match last_error {
            Some(kind) => r matches Error::Io { kind: k, context: c } && k == kind && c@ == context@,
            None => r == status_error(code),
        },
{
    match last_error {
        Some(kind) => Error::Io { kind, context: context.to_owned() },
        None => crate::error::map_status(code),
    }
}

/// Owned handle to an opened read-only `.7z` archive: its entry table and the state of the
/// solid-block cache the SDK extracts through.
pub struct Archive {
    entries: Vec<ArchiveEntry>,
    cached_block_index: u32,
    cached_block_buffer_size: usize,
}

impl Archive {
    /// The entry table.
    pub closed spec fn spec_entries(self) -> Seq<ArchiveEntry> {
        self.entries@
    }

    /// Index of the cached solid block, [`SOLID_CACHE_EMPTY`] when none.
    pub closed spec fn spec_cached_block_index(self) -> u32 {
        self.cached_block_index
    }

    /// Size of the cached solid block.
    pub closed spec fn spec_cached_block_size(self) -> usize {
        self.cached_block_buffer_size
    }

    /// Creates the handle for an archive the SDK opened, building its entry table; the cache
    /// starts empty.
    pub fn from_db(db: &ArchiveDb) -> (r: Result<Self, Error>)
        requires
            db_complete(*db),
        ensures
            r is Ok <==> positions_ordered(*db),
            r matches Err(e) ==> e == Error::SizeOverflow,
            r matches Ok(a) ==> {
                &&& a.spec_entries().len() == db.num_files
                &&& forall|i: int|
                    0 <= i < db.num_files ==> spec_entry_matches(*db, i, #[trigger] a.spec_entries()[i])
                &&& a.spec_cached_block_index() == SOLID_CACHE_EMPTY
                &&& a.spec_cached_block_size() == 0
            },
    {
        match collect_entries(db) {
            Ok(entries) => Ok(
                Archive {
                    entries,
                    cached_block_index: SOLID_CACHE_EMPTY,
                    cached_block_buffer_size: 0,
                },
            ),
            Err(e) => Err(e),
        }
    }

    /// Returns all archive entries, in the order they appear in the header.
    pub fn entries(&self) -> (r: &[ArchiveEntry])
        ensures
            r@ == self.spec_entries(),
    {
        self.entries.as_slice()
    }

    /// Returns the entry at `index`, or `None` if out of bounds.
    pub fn entry(&self, index: usize) -> (r: Option<&ArchiveEntry>)
        ensures
            index < self.spec_entries().len() ==> r == Some(&self.spec_entries()[index as int]),
            index >= self.spec_entries().len() ==> r is None,
    {
        if index < self.entries.len() {
            Some(&self.entries[index])
        } else {
            None
        }
    }

    /// Checks an extraction request: an index out of bounds or a directory is
    /// [`Error::Param`]; otherwise returns the SDK index of the file to extract.
    pub fn file_to_extract(&self, index: usize) -> (r: Result<u32, Error>)
        ensures
            index >= self.spec_entries().len() ==> r == Err::<u32, Error>(Error::Param),
            index < self.spec_entries().len() ==> (if self.spec_entries()[index as int].is_dir {
                r == Err::<u32, Error>(Error::Param)
            } else {
                r == Ok::<u32, Error>(self.spec_entries()[index as int].index)
            }),
    {
        if index >= self.entries.len() {
            return Err(Error::Param);
        }
        let entry = &self.entries[index];
        if entry.is_dir {
            return Err(Error::Param);
        }
        Ok(entry.index)
    }

    /// Records the cache state the SDK left after an extraction.
    pub fn set_cache(&mut self, block_index: u32, block_size: usize)
        ensures
            final(self).spec_entries() == old(self).spec_entries(),
            final(self).spec_cached_block_index() == block_index,
            final(self).spec_cached_block_size() == block_size,
    {
        self.cached_block_index = block_index;
        self.cached_block_buffer_size = block_size;
    }

    /// Marks the solid-block cache empty.
    pub fn clear_cache(&mut self)
        ensures
            final(self).spec_entries() == old(self).spec_entries(),
            final(self).spec_cached_block_index() == SOLID_CACHE_EMPTY,
            final(self).spec_cached_block_size() == 0,
    {
        self.cached_block_index = SOLID_CACHE_EMPTY;
        self.cached_block_buffer_size = 0;
    }
}

/// The bytes of an extracted file: `processed` bytes at `offset` in the decompressed block,
/// none when nothing was processed.
pub fn extracted_contents(block: &[u8], offset: usize, processed: usize) -> (r: Vec<u8>)
    requires
        processed > 0 ==> offset + processed <= block@.len(),
    ensures
        processed == 0 ==> r@ == Seq::<u8>::empty(),
        processed > 0 ==> r@ == block@.subrange(offset as int, offset + processed),
{
    let mut out: Vec<u8> = Vec::new();
    if processed == 0 {
        return out;
    }
    let mut k: usize = 0;
    while k < processed
        invariant
            k <= processed,
            offset + processed <= block.len(),
            out@ == block@.subrange(offset as int, offset + k),
        decreases processed - k,
    {
        out.push(block[offset + k]);
        k = k + 1;
        assert(out@ =~= block@.subrange(offset as int, offset + k));
    }
    out
}

} // verus!
