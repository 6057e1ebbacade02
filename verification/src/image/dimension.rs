//! Image dimensions as used by the frame-graph resource table, together
//! with the creation-info fields derived from them.

use vstd::prelude::*;

use crate::image::Extent3d;
use crate::image::ImageType;

verus! {

/// The extents, image kind and layer count that a transient image
/// description needs, derived from a `Dimensions` value.
pub struct ImageDimensionInfo {
    pub image_type: ImageType,
    pub extent: Extent3d,
    pub array_layers: u32,
}

/// Logical dimensions of an image, as declared by the caller.
#[derive(Copy, Clone, Debug, PartialEq, Eq, Structural, Hash)]
pub enum Dimensions {
    Dim1d { width: u32 },
    Dim1dArray { width: u32, array_layers: u32 },
    Dim2d { width: u32, height: u32 },
    Dim2dArray { width: u32, height: u32, array_layers: u32 },
    Dim3d { width: u32, height: u32, depth: u32 },
    Cubemap { size: u32 },
    CubemapArray { size: u32, array_layers: u32 },
}

impl Dimensions {
    /// Width in texels; a cubemap's width is its face size.
    pub open spec fn spec_width(&self) -> u32 {
        match *self {
            Dimensions::Dim1d { width } => width,
            Dimensions::Dim1dArray { width, .. } => width,
            Dimensions::Dim2d { width, .. } => width,
            Dimensions::Dim2dArray { width, .. } => width,
            Dimensions::Dim3d { width, .. } => width,
            Dimensions::Cubemap { size } => size,
            Dimensions::CubemapArray { size, .. } => size,
        }
    }

    /// Height in texels; 1 for one-dimensional images.
    pub open spec fn spec_height(&self) -> u32 {
        match *self {
            Dimensions::Dim1d { .. } => 1,
            Dimensions::Dim1dArray { .. } => 1,
            Dimensions::Dim2d { height, .. } => height,
            Dimensions::Dim2dArray { height, .. } => height,
            Dimensions::Dim3d { height, .. } => height,
            Dimensions::Cubemap { size } => size,
            Dimensions::CubemapArray { size, .. } => size,
        }
    }

    /// Depth in texels; 1 for everything but 3D images.
    pub open spec fn spec_depth(&self) -> u32 {
        match *self {
            Dimensions::Dim3d { depth, .. } => depth,
            _ => 1,
        }
    }

    /// Declared array layer count; 1 for non-arrayed images, and for
    /// cubemaps before the six faces are counted.
    pub open spec fn spec_array_layers(&self) -> u32 {
        match *self {
            Dimensions::Dim1dArray { array_layers, .. } => array_layers,
            Dimensions::Dim2dArray { array_layers, .. } => array_layers,
            Dimensions::CubemapArray { array_layers, .. } => array_layers,
            _ => 1,
        }
    }

    /// Layer count as the device sees it: each cubemap counts six faces.
    pub open spec fn spec_array_layers_with_cube(&self) -> int {
        match *self {
            Dimensions::Cubemap { .. } => 6,
            Dimensions::CubemapArray { array_layers, .. } => 6 * array_layers as int,
            _ => self.spec_array_layers() as int,
        }
    }

    /// Total number of texels across all layers and faces.
    pub open spec fn spec_num_texels(&self) -> int {
        self.spec_width() as int * self.spec_height() as int * self.spec_depth() as int
            * self.spec_array_layers_with_cube()
    }

    /// The texel count and every partial product on the way to it fit in a
    /// `u32`, so computing it cannot overflow.
    pub open spec fn num_texels_in_range(&self) -> bool {
        &&& self.spec_width() as int * self.spec_height() as int <= u32::MAX
        &&& self.spec_width() as int * self.spec_height() as int * self.spec_depth() as int
            <= u32::MAX
        &&& self.spec_num_texels() <= u32::MAX
        &&& self.spec_array_layers_with_cube() <= u32::MAX
    }

    #[inline]
    pub fn width(&self) -> (r: u32)
        ensures
            r == self.spec_width(),
    {
        match *self {
            Dimensions::Dim1d { width } => width,
            Dimensions::Dim1dArray { width, .. } => width,
            Dimensions::Dim2d { width, .. } => width,
            Dimensions::Dim2dArray { width, .. } => width,
            Dimensions::Dim3d { width, .. } => width,
            Dimensions::Cubemap { size } => size,
            Dimensions::CubemapArray { size, .. } => size,
        }
    }

    #[inline]
    pub fn height(&self) -> (r: u32)
        ensures
            r == self.spec_height(),
    {
        match *self {
            Dimensions::Dim1d { .. } => 1,
            Dimensions::Dim1dArray { .. } => 1,
            Dimensions::Dim2d { height, .. } => height,
            Dimensions::Dim2dArray { height, .. } => height,
            Dimensions::Dim3d { height, .. } => height,
            Dimensions::Cubemap { size } => size,
            Dimensions::CubemapArray { size, .. } => size,
        }
    }

    #[inline]
    pub fn width_height(&self) -> (r: [u32; 2])
        ensures
            r[0] == self.spec_width(),
            r[1] == self.spec_height(),
    {
        [self.width(), self.height()]
    }

    #[inline]
    pub fn depth(&self) -> (r: u32)
        ensures
            r == self.spec_depth(),
    {
        match *self {
            Dimensions::Dim1d { .. } => 1,
            Dimensions::Dim1dArray { .. } => 1,
            Dimensions::Dim2d { .. } => 1,
            Dimensions::Dim2dArray { .. } => 1,
            Dimensions::Dim3d { depth, .. } => depth,
            Dimensions::Cubemap { .. } => 1,
            Dimensions::CubemapArray { .. } => 1,
        }
    }

    #[inline]
    pub fn width_height_depth(&self) -> (r: [u32; 3])
        ensures
            r[0] == self.spec_width(),
            r[1] == self.spec_height(),
            r[2] == self.spec_depth(),
    {
        [self.width(), self.height(), self.depth()]
    }

    #[inline]
    pub fn array_layers(&self) -> (r: u32)
        ensures
            r == self.spec_array_layers(),
    {
        match *self {
            Dimensions::Dim1d { .. } => 1,
            Dimensions::Dim1dArray { array_layers, .. } => array_layers,
            Dimensions::Dim2d { .. } => 1,
            Dimensions::Dim2dArray { array_layers, .. } => array_layers,
            Dimensions::Dim3d { .. } => 1,
            Dimensions::Cubemap { .. } => 1,
            Dimensions::CubemapArray { array_layers, .. } => array_layers,
        }
    }

    #[inline]
    pub fn array_layers_with_cube(&self) -> (r: u32)
        requires
            self.spec_array_layers_with_cube() <= u32::MAX,
        ensures
            r == self.spec_array_layers_with_cube(),
    {
        match *self {
            Dimensions::Dim1d { .. } => 1,
            Dimensions::Dim1dArray { array_layers, .. } => array_layers,
            Dimensions::Dim2d { .. } => 1,
            Dimensions::Dim2dArray { array_layers, .. } => array_layers,
            Dimensions::Dim3d { .. } => 1,
            Dimensions::Cubemap { .. } => 6,
            Dimensions::CubemapArray { array_layers, .. } => array_layers * 6,
        }
    }

    /// Builds the corresponding `ImageDimensionInfo`: arrayed and cube
    /// images flatten to layered 1D/2D images.
    #[inline]
    pub fn to_image_dimension_info(&self) -> (r: ImageDimensionInfo)
        requires
            self.spec_array_layers_with_cube() <= u32::MAX,
        ensures
            r.extent.width == self.spec_width(),
            r.extent.height == self.spec_height(),
            r.extent.depth == self.spec_depth(),
            r.array_layers == self.spec_array_layers_with_cube(),
            r.image_type == (match *self {
                Dimensions::Dim1d { .. } | Dimensions::Dim1dArray { .. } => ImageType::Type1d,
                Dimensions::Dim3d { .. } => ImageType::Type3d,
                _ => ImageType::Type2d,
            }),
    {
        let extent = Extent3d {
            width: self.width(),
            height: self.height(),
            depth: self.depth(),
        };
        let image_type = match *self {
            Dimensions::Dim1d { .. } => ImageType::Type1d,
            Dimensions::Dim1dArray { .. } => ImageType::Type1d,
            Dimensions::Dim3d { .. } => ImageType::Type3d,
            _ => ImageType::Type2d,
        };
        ImageDimensionInfo { image_type, extent, array_layers: self.array_layers_with_cube() }
    }

    /// Returns the total number of texels for an image of these dimensions.
    #[inline]
    pub fn num_texels(&self) -> (r: u32)
        requires
            self.num_texels_in_range(),
        ensures
            r == self.spec_num_texels(),
    {
        self.width() * self.height() * self.depth() * self.array_layers_with_cube()
    }
}

} // verus!
