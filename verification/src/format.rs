//! Pixel formats.

use vstd::prelude::*;

verus! {

/// An opaque pixel-format code. The frontend stores and forwards formats;
/// it never interprets them beyond equality.
#[derive(Copy, Clone, Debug, PartialEq, Eq, Structural, Hash)]
pub struct Format(pub u32);

} // verus!
