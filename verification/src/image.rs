//! Images: dimension descriptions shared by image creation paths, and the
//! mip-level count computation.

use vstd::prelude::*;

pub mod dimension;

verus! {

/// How many mip levels an image is created with.
#[derive(Debug, Copy, Clone)]
pub enum MipmapsCount {
    /// A full chain: one level per power of two down to 1x1.
    Log2,
    /// A single level.
    One,
    /// Exactly this many levels.
    Specific(u32),
}

/// The kind of a GPU image resource (its dimensionality).
#[derive(Copy, Clone, Debug, PartialEq, Eq, Structural, Hash)]
pub enum ImageType {
    Type1d,
    Type2d,
    Type3d,
}

/// Width, height and depth of an image, in texels.
#[derive(Copy, Clone, Debug, PartialEq, Eq, Structural, Hash)]
pub struct Extent3d {
    pub width: u32,
    pub height: u32,
    pub depth: u32,
}

/// The extents, image kind and layer count that an image creation call needs,
/// derived from a `Dimensions` value.
pub struct ImageExtentsAndType {
    pub type_: ImageType,
    pub extent: Extent3d,
    pub array_layers: u32,
}

/// Logical dimensions of an image, as declared by the caller.
#[derive(Copy, Clone, Debug, PartialEq, Eq, Structural, Hash)]
pub enum Dimensions {
    Dim1d { width: u32 },
    Dim1dArray { width: u32, array_layers: u32 },
    Dim2d { width: u32, height: u32 },
    Dim2dArray { width: u32, height: u32, array_layers: u32 },
    Dim3d { width: u32, height: u32, depth: u32 },
    Cubemap { size: u32 },
    CubemapArray { size: u32, array_layers: u32 },
}

impl Dimensions {
    /// Width in texels; a cubemap's width is its face size.
    pub open spec fn spec_width(&self) -> u32 {
        match *self {
            Dimensions::Dim1d { width } => width,
            Dimensions::Dim1dArray { width, .. } => width,
            Dimensions::Dim2d { width, .. } => width,
            Dimensions::Dim2dArray { width, .. } => width,
            Dimensions::Dim3d { width, .. } => width,
            Dimensions::Cubemap { size } => size,
            Dimensions::CubemapArray { size, .. } => size,
        }
    }

    /// Height in texels; 1 for one-dimensional images.
    pub open spec fn spec_height(&self) -> u32 {
        match *self {
            Dimensions::Dim1d { .. } => 1,
            Dimensions::Dim1dArray { .. } => 1,
            Dimensions::Dim2d { height, .. } => height,
            Dimensions::Dim2dArray { height, .. } => height,
            Dimensions::Dim3d { height, .. } => height,
            Dimensions::Cubemap { size } => size,
            Dimensions::CubemapArray { size, .. } => size,
        }
    }

    /// Depth in texels; 1 for everything but 3D images.
    pub open spec fn spec_depth(&self) -> u32 {
        match *self {
            Dimensions::Dim3d { depth, .. } => depth,
            _ => 1,
        }
    }

    /// Declared array layer count; 1 for non-arrayed images, and for
    /// cubemaps before the six faces are counted.
    pub open spec fn spec_array_layers(&self) -> u32 {
        match *self {
            Dimensions::Dim1dArray { array_layers, .. } => array_layers,
            Dimensions::Dim2dArray { array_layers, .. } => array_layers,
            Dimensions::CubemapArray { array_layers, .. } => array_layers,
            _ => 1,
        }
    }

    /// Layer count as the device sees it: each cubemap counts six faces.
    pub open spec fn spec_array_layers_with_cube(&self) -> int {
        match *self {
            Dimensions::Cubemap { .. } => 6,
            Dimensions::CubemapArray { array_layers, .. } => 6 * array_layers as int,
            _ => self.spec_array_layers() as int,
        }
    }

    #[inline]
    pub fn width(&self) -> (r: u32)
        ensures
            r == self.spec_width(),
    {
        match *self {
            Dimensions::Dim1d { width } => width,
            Dimensions::Dim1dArray { width, .. } => width,
            Dimensions::Dim2d { width, .. } => width,
            Dimensions::Dim2dArray { width, .. } => width,
            Dimensions::Dim3d { width, .. } => width,
            Dimensions::Cubemap { size } => size,
            Dimensions::CubemapArray { size, .. } => size,
        }
    }

    #[inline]
    pub fn height(&self) -> (r: u32)
        ensures
            r == self.spec_height(),
    {
        match *self {
            Dimensions::Dim1d { .. } => 1,
            Dimensions::Dim1dArray { .. } => 1,
            Dimensions::Dim2d { height, .. } => height,
            Dimensions::Dim2dArray { height, .. } => height,
            Dimensions::Dim3d { height, .. } => height,
            Dimensions::Cubemap { size } => size,
            Dimensions::CubemapArray { size, .. } => size,
        }
    }

    #[inline]
    pub fn width_height(&self) -> (r: [u32; 2])
        ensures
            r[0] == self.spec_width(),
            r[1] == self.spec_height(),
    {
        [self.width(), self.height()]
    }

    #[inline]
    pub fn depth(&self) -> (r: u32)
        ensures
            r == self.spec_depth(),
    {
        match *self {
            Dimensions::Dim1d { .. } => 1,
            Dimensions::Dim1dArray { .. } => 1,
            Dimensions::Dim2d { .. } => 1,
            Dimensions::Dim2dArray { .. } => 1,
            Dimensions::Dim3d { depth, .. } => depth,
            Dimensions::Cubemap { .. } => 1,
            Dimensions::CubemapArray { .. } => 1,
        }
    }

    #[inline]
    pub fn width_height_depth(&self) -> (r: [u32; 3])
        ensures
            r[0] == self.spec_width(),
            r[1] == self.spec_height(),
            r[2] == self.spec_depth(),
    {
        [self.width(), self.height(), self.depth()]
    }

    #[inline]
    pub fn array_layers(&self) -> (r: u32)
        ensures
            r == self.spec_array_layers(),
    {
        match *self {
            Dimensions::Dim1d { .. } => 1,
            Dimensions::Dim1dArray { array_layers, .. } => array_layers,
            Dimensions::Dim2d { .. } => 1,
            Dimensions::Dim2dArray { array_layers, .. } => array_layers,
            Dimensions::Dim3d { .. } => 1,
            Dimensions::Cubemap { .. } => 1,
            Dimensions::CubemapArray { array_layers, .. } => array_layers,
        }
    }

    #[inline]
    pub fn array_layers_with_cube(&self) -> (r: u32)
        requires
            self.spec_array_layers_with_cube() <= u32::MAX,
        ensures
            r == self.spec_array_layers_with_cube(),
    {
        match *self {
            Dimensions::Dim1d { .. } => 1,
            Dimensions::Dim1dArray { array_layers, .. } => array_layers,
            Dimensions::Dim2d { .. } => 1,
            Dimensions::Dim2dArray { array_layers, .. } => array_layers,
            Dimensions::Dim3d { .. } => 1,
            Dimensions::Cubemap { .. } => 6,
            Dimensions::CubemapArray { array_layers, .. } => array_layers * 6,
        }
    }

    /// Builds the extents, image kind and layer count for an image creation
    /// call: arrayed and cube images flatten to layered 1D/2D images.
    #[inline]
    pub fn to_image_extents_and_type(&self) -> (r: ImageExtentsAndType)
        requires
            self.spec_array_layers_with_cube() <= u32::MAX,
        ensures
            r.extent.width == self.spec_width(),
            r.extent.height == self.spec_height(),
            r.extent.depth == self.spec_depth(),
            r.array_layers == self.spec_array_layers_with_cube(),
            r.type_ == (match *self {
                Dimensions::Dim1d { .. } | Dimensions::Dim1dArray { .. } => ImageType::Type1d,
                Dimensions::Dim3d { .. } => ImageType::Type3d,
                _ => ImageType::Type2d,
            }),
    {
        let extent = Extent3d {
            width: self.width(),
            height: self.height(),
            depth: self.depth(),
        };
        let type_ = match *self {
            Dimensions::Dim1d { .. } => ImageType::Type1d,
            Dimensions::Dim1dArray { .. } => ImageType::Type1d,
            Dimensions::Dim3d { .. } => ImageType::Type3d,
            _ => ImageType::Type2d,
        };
        ImageExtentsAndType { type_, extent, array_layers: self.array_layers_with_cube() }
    }
}

/// `floor(log2(n))` for `n >= 1`.
pub open spec fn floor_log2(n: int) -> int
    recommends
        n >= 1,
    decreases n,
{
    if n <= 1 {
        0
    } else {
        1 + floor_log2(n / 2)
    }
}

/// The mip chain length for a texture whose largest extent is `size`:
/// one level, plus one more for each halving down to a single texel.
pub open spec fn mip_level_count(size: u32) -> int {
    if size == 0 {
        1
    } else {
        1 + floor_log2(size as int)
    }
}

/// Number of mip levels of a full mip chain for the given largest extent.
pub fn get_texture_mip_map_count(size: u32) -> (r: u32)
    ensures
        r == mip_level_count(size),
{
    if size == 0 {
        return 1;
    }
    proof {
        vstd::arithmetic::power2::lemma2_to64();
        lemma_floor_log2_lt(size as int, 32);
    }
    let mut n: u32 = size;
    let mut count: u32 = 1;
    while n > 1
        invariant
            1 <= n <= size,
            count >= 1,
            count - 1 + floor_log2(n as int) == floor_log2(size as int),
            floor_log2(size as int) <= 31,
        decreases n,
    {
        proof {
            lemma_floor_log2_nonneg(n as int / 2);
        }
        n = n / 2;
        count = count + 1;
    }
    count
}

/// `floor_log2` is never negative.
proof fn lemma_floor_log2_nonneg(n: int)
    ensures
        0 <= floor_log2(n),
    decreases n,
{
    if n > 1 {
        lemma_floor_log2_nonneg(n / 2);
    }
}

/// `floor_log2(n) < k` whenever `n < 2^k`.
proof fn lemma_floor_log2_lt(n: int, k: nat)
    requires
        1 <= n < vstd::arithmetic::power2::pow2(k),
    ensures
        floor_log2(n) < k,
    decreases n,
{
    if n <= 1 {
        if k == 0 {
            vstd::arithmetic::power2::lemma2_to64();
        }
    } else {
        if k == 0 {
            vstd::arithmetic::power2::lemma2_to64();
        } else {
            assert(vstd::arithmetic::power2::pow2(k) == 2 * vstd::arithmetic::power2::pow2(
                (k - 1) as nat,
            )) by {
                vstd::arithmetic::power2::lemma_pow2_unfold(k);
            }
            lemma_floor_log2_lt(n / 2, (k - 1) as nat);
        }
    }
}

} // verus!
