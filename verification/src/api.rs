//! Top-level graphics API types: alias scopes for transient resource reuse,
//! and small classification enums shared across the frontend.

use vstd::prelude::*;

verus! {

/// Classifies where a GPU allocation should live.
#[derive(Copy, Clone, Debug)]
pub enum MemoryType {
    DeviceLocal,
    HostUpload,
    HostReadback,
}

/// Classifies which hardware queue a workload targets.
#[derive(Copy, Clone, Debug)]
pub enum Queue {
    Graphics,
    Compute,
    Transfer,
}

/// A contiguous range in the sorted command stream inside which a resource
/// should not be aliased.
///
/// An `AliasScope` is defined using a mask and a value (similarly to IP
/// subnet masks): a command with sortkey `s` is inside the range if
/// `s & mask == value`.
#[derive(Copy, Clone, Debug, PartialEq, Eq, Structural, Hash)]
pub struct AliasScope {
    pub value: u64,
    pub mask: u64,
}

/// Dummy backend for testing purposes: every associated object is empty.
#[derive(Copy, Clone, Debug, PartialEq, Eq, Structural, Hash)]
pub struct DummyBackend;

/// Dummy swapchain for testing purposes.
#[derive(Copy, Clone, Debug, PartialEq, Eq, Structural)]
pub struct DummySwapchain;

/// Dummy instance for testing purposes; it performs no device work.
#[derive(Copy, Clone, Debug, PartialEq, Eq, Structural)]
pub struct DummyInstance;

impl AliasScope {
    /// Returns an `AliasScope` encompassing the whole command stream.
    pub fn no_alias() -> (r: AliasScope)
        ensures
            r.value == 0,
            r.mask == 0,
    {
        AliasScope { value: 0, mask: 0 }
    }

    /// Returns true if this scope overlaps the other: the two value patterns
    /// agree on every bit that both masks select.
    pub fn overlaps(&self, other: &AliasScope) -> (r: bool)
        ensures
            r == ((self.value & (self.mask & other.mask))
                == (other.value & (self.mask & other.mask))),
    {
        let m = self.mask & other.mask;
        (self.value & m) == (other.value & m)
    }
}

} // verus!
