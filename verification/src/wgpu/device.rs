//! The device of the software backend.

use vstd::prelude::*;

verus! {

/// The alignment of every buffer, in bytes.
pub const BUFFER_ALIGNMENT: usize = 32;

/// The largest size that a block of memory can have.
pub open spec fn largest_block() -> int {
    isize::MAX as int
}

/// Whether a buffer of `size` bytes can be created: the size, rounded up
/// to the alignment of buffers, must not exceed the largest block.
pub open spec fn buffer_fits(size: u64) -> bool {
    size <= largest_block() - (BUFFER_ALIGNMENT - 1)
}

/// The device of the backend.
#[derive(Clone, Copy, Debug)]
pub struct Device;

impl Device {
    /// The number of bytes to allocate for a buffer of `size` bytes;
    /// `None` where no such buffer can be created.
    pub fn buffer_len(&self, size: u64) -> (len: Option<usize>)
        ensures
            len == (if buffer_fits(size) {
                Some(size as usize)
            } else {
                None
            }),
    {
        if size <= (isize::MAX as u64) - ((BUFFER_ALIGNMENT - 1) as u64) {
            Some(size as usize)
        } else {
            None
        }
    }

    /// Where the mapping of a buffer of `len` bytes from `start` on
    /// begins, as an offset from the start of the buffer; `None` where the
    /// range begins beyond the buffer.
    pub fn mapping_offset(&self, len: usize, start: u64) -> (offset: Option<usize>)
        ensures
            offset == (if start <= len {
                Some(start as usize)
            } else {
                None
            }),
    {
        if start <= len as u64 {
            Some(start as usize)
        } else {
            None
        }
    }
}

} // verus!
