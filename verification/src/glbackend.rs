//! Plain descriptions of the OpenGL backend's raw resources. The driver
//! calls that create and destroy these objects live with the caller; this
//! module holds the data the backend logic computes with: object names,
//! texture targets, sizes, and the derivation of creation parameters from
//! logical dimensions.

use vstd::prelude::*;

use crate::format::Format;
use crate::image::Dimensions;
use crate::image::MipmapsCount;
use crate::image::get_texture_mip_map_count;
use crate::image::mip_level_count;
use crate::frame::FrameError;

verus! {

/// Texture target numbers, as OpenGL numbers them.
pub const TEXTURE_1D: u32 = 0x0DE0;

pub const TEXTURE_2D: u32 = 0x0DE1;

pub const TEXTURE_3D: u32 = 0x806F;

pub const RENDERBUFFER: u32 = 0x8D41;

/// A raw OpenGL buffer: the object name and its byte size.
#[derive(Copy, Clone, Debug, PartialEq, Eq, Structural)]
pub struct RawBuffer {
    pub obj: u32,
    pub size: usize,
}

/// What a buffer is created with.
#[derive(Copy, Clone, Debug, PartialEq, Eq, Structural, Hash)]
pub struct BufferDescription {
    pub size: usize,
}

/// A raw OpenGL image: a texture object or a renderbuffer object, with the
/// target it was created for.
#[derive(Copy, Clone, Debug, PartialEq, Eq, Structural)]
pub struct RawImage {
    pub obj: u32,
    pub target: u32,
}

impl RawImage {
    /// Whether this image is a renderbuffer rather than a texture.
    pub fn is_renderbuffer(&self) -> (r: bool)
        ensures
            r == (self.target == RENDERBUFFER),
    {
        self.target == RENDERBUFFER
    }
}

/// Trait implemented by objects that can act as a swapchain. OpenGL has no
/// swapchains of its own: window handles implement this to report the size
/// of the default framebuffer and to swap buffers.
pub trait SwapchainInner {
    fn size(&self) -> (u32, u32);

    fn present(&self);
}

/// The extents, texture target and layer count that a texture creation
/// call needs, derived from logical dimensions. One-dimensional arrays
/// become two-dimensional textures.
#[derive(Copy, Clone, Debug, PartialEq, Eq, Structural)]
pub struct ExtentsAndType {
    pub target: u32,
    pub width: u32,
    pub height: u32,
    pub depth: u32,
    pub array_layers: u32,
}

impl ExtentsAndType {
    /// Derives the creation parameters from logical dimensions. Cube maps
    /// are a configuration this backend does not support yet; they are
    /// refused, never mapped to wrong parameters.
    pub fn from_dimensions(dim: &Dimensions) -> (r: Result<ExtentsAndType, FrameError>)
        ensures
            r == (match *dim {
                Dimensions::Dim1d { width } => Ok::<ExtentsAndType, FrameError>(
                    (ExtentsAndType {
                        target: TEXTURE_1D,
                        width,
                        height: 1,
                        depth: 1,
                        array_layers: 1,
                    }),
                ),
                Dimensions::Dim1dArray { width, array_layers } => Ok(
                    (ExtentsAndType {
                        target: TEXTURE_2D,
                        width,
                        height: 1,
                        depth: 1,
                        array_layers,
                    }),
                ),
                Dimensions::Dim2d { width, height } => Ok(
                    (ExtentsAndType {
                        target: TEXTURE_2D,
                        width,
                        height,
                        depth: 1,
                        array_layers: 1,
                    }),
                ),
                Dimensions::Dim2dArray { width, height, array_layers } => Ok(
                    (ExtentsAndType {
                        target: TEXTURE_2D,
                        width,
                        height,
                        depth: 1,
                        array_layers,
                    }),
                ),
                Dimensions::Dim3d { width, height, depth } => Ok(
                    (ExtentsAndType {
                        target: TEXTURE_3D,
                        width,
                        height,
                        depth,
                        array_layers: 1,
                    }),
                ),
                _ => Err(FrameError::NotSupported),
            }),
    {
        match *dim {
            Dimensions::Dim1d { width } => Ok(
                ExtentsAndType { target: TEXTURE_1D, width, height: 1, depth: 1, array_layers: 1 },
            ),
            Dimensions::Dim1dArray { width, array_layers } => Ok(
                ExtentsAndType { target: TEXTURE_2D, width, height: 1, depth: 1, array_layers },
            ),
            Dimensions::Dim2d { width, height } => Ok(
                ExtentsAndType { target: TEXTURE_2D, width, height, depth: 1, array_layers: 1 },
            ),
            Dimensions::Dim2dArray { width, height, array_layers } => Ok(
                ExtentsAndType { target: TEXTURE_2D, width, height, depth: 1, array_layers },
            ),
            Dimensions::Dim3d { width, height, depth } => Ok(
                ExtentsAndType { target: TEXTURE_3D, width, height, depth, array_layers: 1 },
            ),
            _ => Err(FrameError::NotSupported),
        }
    }
}

/// What an image is created with: the mip count is resolved here, from the
/// requested mipmap mode and the dimensions.
#[derive(Copy, Clone, Debug, PartialEq, Eq, Structural)]
pub struct ImageDescription {
    pub format: Format,
    pub dimensions: Dimensions,
    pub mipcount: u32,
    pub samples: u32,
    pub usage: u32,
}

/// The mip count an image description resolves to: a full chain down from
/// the larger of width and height, exactly one level, or the requested
/// count.
pub open spec fn spec_resolved_mipcount(dimensions: Dimensions, mipmaps_count: MipmapsCount) -> int {
    match mipmaps_count {
        MipmapsCount::Log2 => mip_level_count(
            if dimensions.spec_width() >= dimensions.spec_height() {
                dimensions.spec_width()
            } else {
                dimensions.spec_height()
            },
        ),
        MipmapsCount::Specific(count) => count as int,
        MipmapsCount::One => 1,
    }
}

impl ImageDescription {
    /// Builds an image description, resolving the mipmap mode to a level
    /// count. A multisampled image cannot carry more than one explicit mip
    /// level.
    pub fn new(
        format: Format,
        dimensions: Dimensions,
        mipmaps_count: MipmapsCount,
        samples: u32,
        usage: u32,
    ) -> (r: ImageDescription)
        requires
            (match mipmaps_count {
                MipmapsCount::Specific(count) => samples > 1 ==> count == 1,
                _ => true,
            }),
        ensures
            r.format == format,
            r.dimensions == dimensions,
            r.samples == samples,
            r.usage == usage,
            r.mipcount == spec_resolved_mipcount(dimensions, mipmaps_count),
    {
        let (w, h) = (dimensions.width(), dimensions.height());
        let mipcount: u32 = match mipmaps_count {
            MipmapsCount::Log2 => get_texture_mip_map_count(
                if w >= h {
                    w
                } else {
                    h
                },
            ),
            MipmapsCount::Specific(count) => count,
            MipmapsCount::One => 1,
        };
        ImageDescription { format, dimensions, mipcount, usage, samples }
    }
}

} // verus!
