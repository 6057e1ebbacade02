//! Upload buffers: a bump allocator over a persistently mapped device
//! buffer. The allocator hands out aligned offsets; the caller copies its
//! data at the returned offset through the device mapping it owns.

use vstd::prelude::*;

use crate::glbackend::RawBuffer;

verus! {

/// The first multiple of `align` at or after `start`, if one exists with
/// `size` bytes of room before `end`.
pub open spec fn spec_align_offset(size: u64, align: u64, start: u64, end: u64) -> Option<u64>
    recommends
        align >= 1,
{
    let aligned = (start as int + align as int - 1) / (align as int) * (align as int);
    if aligned + size <= end {
        Some(aligned as u64)
    } else {
        None
    }
}

/// Rounds `start` up to the next multiple of `align` and returns it when
/// `size` bytes fit between it and `end`; `None` when they do not.
pub fn align_offset(size: u64, align: u64, start: u64, end: u64) -> (r: Option<u64>)
    requires
        align >= 1,
        start <= end,
        end <= u64::MAX - align,
        size <= u64::MAX - end,
    ensures
        r == spec_align_offset(size, align, start, end),
        r is Some ==> {
            &&& r->Some_0 % align == 0
            &&& start <= r->Some_0
            &&& r->Some_0 + size <= end
        },
{
    proof {
        let s = start as int;
        let a = align as int;
        assert((s + a - 1) / a * a < s + a && (s + a - 1) / a * a >= s && ((s + a - 1) / a * a) % a
            == 0) by (nonlinear_arith)
            requires
                a >= 1,
                s >= 0,
        ;
    }
    let aligned = ((start + align - 1) / align) * align;
    if aligned <= end && size <= end - aligned {
        Some(aligned)
    } else {
        None
    }
}

/// A bump allocator over one mapped device buffer: successive writes take
/// successive aligned slices until the buffer is full.
#[derive(Debug)]
pub struct UploadBuffer {
    buffer: RawBuffer,
    offset: usize,
}

impl UploadBuffer {
    /// The buffer being filled.
    pub closed spec fn spec_buffer(&self) -> RawBuffer {
        self.buffer
    }

    /// How many bytes from the start of the buffer are spoken for.
    pub closed spec fn spec_offset(&self) -> int {
        self.offset as int
    }

    /// Wraps a mapped buffer; nothing is allocated yet.
    pub fn new(buffer: RawBuffer) -> (r: UploadBuffer)
        ensures
            r.spec_buffer() == buffer,
            r.spec_offset() == 0,
    {
        UploadBuffer { buffer, offset: 0 }
    }

    /// Reserves `len` bytes at the next offset aligned to `align`. Returns
    /// the buffer name and the offset to copy at, or `None` when the
    /// remaining space cannot hold an aligned slice of that length; the
    /// allocator is then unchanged.
    pub fn write(&mut self, len: usize, align: usize) -> (r: Option<(u32, usize)>)
        requires
            align >= 1,
            old(self).spec_offset() <= old(self).spec_buffer().size,
            old(self).spec_buffer().size <= u64::MAX as int - align,
            len <= u64::MAX as int - old(self).spec_buffer().size,
        ensures
            ({
                let found = spec_align_offset(
                    len as u64,
                    align as u64,
                    old(self).spec_offset() as u64,
                    old(self).spec_buffer().size as u64,
                );
                match r {
                    Some((obj, offset)) => {
                        &&& found == Some(offset as u64)
                        &&& obj == old(self).spec_buffer().obj
                        &&& offset % align == 0
                        &&& old(self).spec_offset() <= offset
                        &&& final(self).spec_offset() == offset + len
                        &&& final(self).spec_offset() <= final(self).spec_buffer().size
                    },
                    None => found is None && *final(self) == *old(self),
                }
            }),
            final(self).spec_buffer() == old(self).spec_buffer(),
    {
        let start = self.offset as u64;
        let end = self.buffer.size as u64;
        match align_offset(len as u64, align as u64, start, end) {
            Some(offset) => {
                self.offset = offset as usize + len;
                Some((self.buffer.obj, offset as usize))
            },
            None => None,
        }
    }

    /// Hands the underlying buffer back.
    pub fn into_inner(self) -> (r: RawBuffer)
        ensures
            r == self.spec_buffer(),
    {
        self.buffer
    }
}

} // verus!
