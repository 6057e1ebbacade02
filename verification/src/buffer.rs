//! Buffer views shared by the command layer.

use vstd::prelude::*;

use crate::cmd::BufferHandle;

verus! {

/// A contiguous byte range of one device buffer.
#[derive(Copy, Clone, Debug, PartialEq, Eq, Structural)]
pub struct BufferSlice {
    pub buffer: BufferHandle,
    pub offset: usize,
    pub size: usize,
}

/// Marker trait for data that can be uploaded to a GPU buffer: a single
/// element, or a slice of elements.
pub trait BufferData {
    /// How many elements this value uploads.
    fn len(&self) -> usize;
}

} // verus!
