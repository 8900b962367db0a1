//! The decisions of the callback adapters that present Rust buffers and readers to the SDK as
//! its input and output stream interfaces. The callbacks themselves move bytes across the
//! FFI boundary and stay outside the library.

use vstd::prelude::*;

use crate::append_bytes;

verus! {

/// The SDK's `SZ_SEEK_SET` origin code.
pub const SZ_SEEK_SET: u32 = 0;
/// The SDK's `SZ_SEEK_CUR` origin code.
pub const SZ_SEEK_CUR: u32 = 1;
/// The SDK's `SZ_SEEK_END` origin code.
pub const SZ_SEEK_END: u32 = 2;

/// Read cursor over an in-memory input of known length, as the SDK's sequential input
/// stream sees it.
#[derive(Debug, Clone, Copy, PartialEq, Eq)]
pub struct SliceInStream {
    len: usize,
    pos: usize,
}

impl SliceInStream {
    /// The cursor never passes the end of the input.
    pub closed spec fn wf(self) -> bool {
        self.pos <= self.len
    }

    /// Length of the input.
    pub closed spec fn spec_len(self) -> usize {
        self.len
    }

    /// Offset where the next read begins.
    pub closed spec fn spec_pos(self) -> usize {
        self.pos
    }

    /// Creates a cursor at the start of an input of `len` bytes.
    pub fn new(len: usize) -> (r: Self)
        ensures
            r.wf(),
            r.spec_len() == len,
            r.spec_pos() == 0,
    {
        SliceInStream { len, pos: 0 }
    }

    /// A read of `requested` bytes: copies as many as remain, at most `requested`, from the
    /// current position, advances past them and returns their count (zero at the end).
    pub fn read(&mut self, requested: usize) -> (r: (usize, usize))
        requires
            old(self).wf(),
        ensures
            final(self).wf(),
            final(self).spec_len() == old(self).spec_len(),
            r.0 == old(self).spec_pos(),
            r.1 == vstd::math::min(
                old(self).spec_len() - old(self).spec_pos(),
                requested as int,
            ),
            final(self).spec_pos() == old(self).spec_pos() + r.1,
    {
        let remaining = self.len - self.pos;
        let count = if remaining < requested {
            remaining
        } else {
            requested
        };
        let start = self.pos;
        self.pos = self.pos + count;
        (start, count)
    }
}

/// Output sink collecting everything the SDK writes.
pub struct VecOutStream {
    output: Vec<u8>,
}

impl VecOutStream {
    /// Everything written so far.
    pub closed spec fn spec_output(self) -> Seq<u8> {
        self.output@
    }

    /// Creates an empty sink.
    pub fn new() -> (r: Self)
        ensures
            r.spec_output() == Seq::<u8>::empty(),
    {
        VecOutStream { output: Vec::new() }
    }

    /// A write of `bytes`: they are appended, and their count is returned.
    pub fn write(&mut self, bytes: &[u8]) -> (r: usize)
        ensures
            final(self).spec_output() == old(self).spec_output() + bytes@,
            r == bytes@.len(),
    {
        if bytes.len() == 0 {
            assert(self.output@ + bytes@ =~= self.output@);
            return 0;
        }
        append_bytes(&mut self.output, bytes);
        bytes.len()
    }

    /// Gives up the collected bytes.
    pub fn into_inner(self) -> (r: Vec<u8>)
        ensures
            r@ == self.spec_output(),
    {
        self.output
    }
}

/// Where a seek request goes, in the reader's terms.
#[derive(Debug, Clone, Copy, PartialEq, Eq)]
pub enum SeekTarget {
    /// An absolute position from the start.
    Start(u64),
    /// A position relative to the current one.
    Current(i64),
    /// A position relative to the end.
    End(i64),
}

/// Translates an SDK seek request: an absolute seek needs a non-negative offset, relative
/// seeks take the offset as it is, and an unknown origin is refused (`None`, reported to the
/// SDK as a parameter error).
pub fn seek_target(origin: u32, offset: i64) -> (r: Option<SeekTarget>)
    ensures
        origin == SZ_SEEK_SET ==> (if offset >= 0 {
            r == Some(SeekTarget::Start(offset as u64))
        } else {
            r is None
        }),
        origin == SZ_SEEK_CUR ==> r == Some(SeekTarget::Current(offset)),
        origin == SZ_SEEK_END ==> r == Some(SeekTarget::End(offset)),
        origin != SZ_SEEK_SET && origin != SZ_SEEK_CUR && origin != SZ_SEEK_END ==> r is None,
{
    if origin == SZ_SEEK_SET {
        if offset >= 0 {
            Some(SeekTarget::Start(offset as u64))
        } else {
            None
        }
    } else if origin == SZ_SEEK_CUR {
        Some(SeekTarget::Current(offset))
    } else if origin == SZ_SEEK_END {
        Some(SeekTarget::End(offset))
    } else {
        None
    }
}

/// The position reported back to the SDK after a successful seek: refused (`None`, a
/// parameter error) when it does not fit in an `i64`.
pub fn reported_position(position: u64) -> (r: Option<i64>)
    ensures
        position <= i64::MAX ==> r == Some(position as i64),
        position > i64::MAX ==> r is None,
{
    if position <= i64::MAX as u64 {
        Some(position as i64)
    } else {
        None
    }
}

} // verus!
