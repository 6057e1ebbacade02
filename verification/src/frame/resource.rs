//! The resource table of a frame: stable opaque handles for the images and
//! buffers a frame uses, each either transient (created for the frame,
//! eligible for memory aliasing) or imported (owned by the caller, never
//! aliased).

use vstd::prelude::*;

use crate::image::dimension::Dimensions;
use crate::format::Format;

verus! {

/// Handle of one image in a frame's resource table.
#[derive(Copy, Clone, Debug, PartialEq, Eq, Structural, Hash)]
pub struct ImageId(pub u32);

/// Handle of one buffer in a frame's resource table.
#[derive(Copy, Clone, Debug, PartialEq, Eq, Structural, Hash)]
pub struct BufferId(pub u32);

/// Handle of one attachment of a render pass.
#[derive(Copy, Clone, Debug, PartialEq, Eq, Structural, Hash)]
pub struct AttachmentId(pub u32);

/// Image usage bits, stored and forwarded without interpretation.
pub type ImageUsageFlags = u32;

/// What a transient image is created with. The frame stores and forwards
/// these fields; it never interprets them beyond presence checks.
#[derive(Copy, Clone, Debug, PartialEq, Eq, Structural)]
pub struct ImageCreateInfo {
    pub format: Format,
    pub dimensions: Dimensions,
    pub mip_levels: u32,
    pub array_layers: u32,
    pub samples: u32,
    pub usage: ImageUsageFlags,
}

/// One image of the resource table.
#[derive(Debug)]
pub enum ImageResource {
    /// Created for this frame; its memory may be aliased once its last use
    /// has passed.
    Transient { name: String, info: ImageCreateInfo },
    /// Owned by the caller's longer-lived context; never aliased.
    Imported { name: String },
}

/// One buffer of the resource table.
#[derive(Debug)]
pub enum BufferResource {
    /// Created for this frame.
    Transient { name: String, size: u64 },
    /// Owned by the caller's longer-lived context.
    Imported { name: String },
}

impl ImageResource {
    /// Whether this image may be aliased.
    pub open spec fn spec_is_transient(&self) -> bool {
        self is Transient
    }
}

/// The resource table: owns the identities of every image and buffer the
/// frame touches. A handle is an index into one of the two tables.
#[derive(Debug)]
pub struct Resources {
    images: Vec<ImageResource>,
    buffers: Vec<BufferResource>,
}

impl Resources {
    /// The images, in creation order; an `ImageId` indexes this sequence.
    pub closed spec fn spec_images(&self) -> Seq<ImageResource> {
        self.images@
    }

    /// The buffers, in creation order; a `BufferId` indexes this sequence.
    pub closed spec fn spec_buffers(&self) -> Seq<BufferResource> {
        self.buffers@
    }

    /// An empty resource table.
    pub fn new() -> (r: Resources)
        ensures
            r.spec_images().len() == 0,
            r.spec_buffers().len() == 0,
    {
        Resources { images: Vec::new(), buffers: Vec::new() }
    }

    /// Number of images in the table.
    pub fn image_count(&self) -> (n: usize)
        ensures
            n == self.spec_images().len(),
    {
        self.images.len()
    }

    /// Number of buffers in the table.
    pub fn buffer_count(&self) -> (n: usize)
        ensures
            n == self.spec_buffers().len(),
    {
        self.buffers.len()
    }

    /// Creates a transient image and returns its handle.
    pub fn create_image(&mut self, name: String, info: ImageCreateInfo) -> (id: ImageId)
        requires
            old(self).spec_images().len() < u32::MAX,
        ensures
            final(self).spec_images() == old(self).spec_images().push(
                ImageResource::Transient { name, info },
            ),
            final(self).spec_buffers() == old(self).spec_buffers(),
            id.0 == old(self).spec_images().len(),
    {
        let id = ImageId(self.images.len() as u32);
        self.images.push(ImageResource::Transient { name, info });
        id
    }

    /// Registers an imported image and returns its handle.
    pub fn add_imported_image(&mut self, name: String) -> (id: ImageId)
        requires
            old(self).spec_images().len() < u32::MAX,
        ensures
            final(self).spec_images() == old(self).spec_images().push(
                ImageResource::Imported { name },
            ),
            final(self).spec_buffers() == old(self).spec_buffers(),
            id.0 == old(self).spec_images().len(),
    {
        let id = ImageId(self.images.len() as u32);
        self.images.push(ImageResource::Imported { name });
        id
    }

    /// Creates a transient buffer and returns its handle.
    pub fn create_buffer(&mut self, name: String, size: u64) -> (id: BufferId)
        requires
            old(self).spec_buffers().len() < u32::MAX,
        ensures
            final(self).spec_buffers() == old(self).spec_buffers().push(
                BufferResource::Transient { name, size },
            ),
            final(self).spec_images() == old(self).spec_images(),
            id.0 == old(self).spec_buffers().len(),
    {
        let id = BufferId(self.buffers.len() as u32);
        self.buffers.push(BufferResource::Transient { name, size });
        id
    }

    /// Registers an imported buffer and returns its handle.
    pub fn add_imported_buffer(&mut self, name: String) -> (id: BufferId)
        requires
            old(self).spec_buffers().len() < u32::MAX,
        ensures
            final(self).spec_buffers() == old(self).spec_buffers().push(
                BufferResource::Imported { name },
            ),
            final(self).spec_images() == old(self).spec_images(),
            id.0 == old(self).spec_buffers().len(),
    {
        let id = BufferId(self.buffers.len() as u32);
        self.buffers.push(BufferResource::Imported { name });
        id
    }

    /// Whether the image behind `id` is transient (aliasable).
    pub fn is_image_transient(&self, id: ImageId) -> (r: bool)
        requires
            id.0 < self.spec_images().len(),
        ensures
            r == self.spec_images()[id.0 as int].spec_is_transient(),
    {
        match &self.images[id.0 as usize] {
            ImageResource::Transient { .. } => true,
            ImageResource::Imported { .. } => false,
        }
    }
}

} // verus!
