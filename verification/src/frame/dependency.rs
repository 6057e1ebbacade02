//! Dependencies between frame-graph tasks: pipeline-stage masks, the
//! barrier payload carried by an edge, and the merge algebra applied when
//! two dependencies describe the same resource between the same task pair.

use vstd::prelude::*;

use crate::frame::resource::BufferId;
use crate::frame::resource::ImageId;

verus! {

/// Pipeline stage bits, numbered as Vulkan numbers them.
pub const PIPELINE_STAGE_TOP_OF_PIPE_BIT: u32 = 0x1;

pub const PIPELINE_STAGE_VERTEX_INPUT_BIT: u32 = 0x4;

pub const PIPELINE_STAGE_VERTEX_SHADER_BIT: u32 = 0x8;

pub const PIPELINE_STAGE_FRAGMENT_SHADER_BIT: u32 = 0x80;

pub const PIPELINE_STAGE_COLOR_ATTACHMENT_OUTPUT_BIT: u32 = 0x400;

pub const PIPELINE_STAGE_COMPUTE_SHADER_BIT: u32 = 0x800;

pub const PIPELINE_STAGE_TRANSFER_BIT: u32 = 0x1000;

pub const PIPELINE_STAGE_BOTTOM_OF_PIPE_BIT: u32 = 0x2000;

/// Memory access bits, numbered as Vulkan numbers them.
pub const ACCESS_INDEX_READ_BIT: u32 = 0x2;

pub const ACCESS_UNIFORM_READ_BIT: u32 = 0x8;

pub const ACCESS_SHADER_READ_BIT: u32 = 0x20;

pub const ACCESS_SHADER_WRITE_BIT: u32 = 0x40;

pub const ACCESS_COLOR_ATTACHMENT_READ_BIT: u32 = 0x80;

pub const ACCESS_COLOR_ATTACHMENT_WRITE_BIT: u32 = 0x100;

pub const ACCESS_TRANSFER_READ_BIT: u32 = 0x800;

pub const ACCESS_TRANSFER_WRITE_BIT: u32 = 0x1000;

pub const ACCESS_MEMORY_READ_BIT: u32 = 0x8000;

/// A memory barrier on one buffer resource.
#[derive(Copy, Clone, Debug, PartialEq, Eq, Structural)]
pub struct BufferBarrier {
    pub id: BufferId,
    pub src_access_mask: u32,
    pub dst_access_mask: u32,
}

/// A memory barrier on one image resource; a layout transition is implied.
#[derive(Copy, Clone, Debug, PartialEq, Eq, Structural)]
pub struct ImageBarrier {
    pub id: ImageId,
    pub src_access_mask: u32,
    pub dst_access_mask: u32,
}

/// The payload of a dependency edge: a buffer barrier, an image barrier, or
/// a pure ordering constraint that names no resource.
#[derive(Copy, Clone, Debug, PartialEq, Eq, Structural)]
pub enum BarrierDetail {
    Buffer(BufferBarrier),
    Image(ImageBarrier),
    Sequence,
}

impl BarrierDetail {
    /// The image this barrier is about, if it is an image barrier.
    pub open spec fn spec_image_id(&self) -> Option<ImageId> {
        match *self {
            BarrierDetail::Image(b) => Some(b.id),
            _ => None,
        }
    }

    /// The buffer this barrier is about, if it is a buffer barrier.
    pub open spec fn spec_buffer_id(&self) -> Option<BufferId> {
        match *self {
            BarrierDetail::Buffer(b) => Some(b.id),
            _ => None,
        }
    }

    /// The image this barrier is about, if it is an image barrier.
    pub fn image_id(&self) -> (r: Option<ImageId>)
        ensures
            r == self.spec_image_id(),
    {
        match *self {
            BarrierDetail::Image(b) => Some(b.id),
            _ => None,
        }
    }

    /// The buffer this barrier is about, if it is a buffer barrier.
    pub fn buffer_id(&self) -> (r: Option<BufferId>)
        ensures
            r == self.spec_buffer_id(),
    {
        match *self {
            BarrierDetail::Buffer(b) => Some(b.id),
            _ => None,
        }
    }
}

/// A dependency between two tasks: the source stages that must complete,
/// the destination stages that wait, the barrier payload, and a latency
/// estimate used only as a scheduling hint.
#[derive(Copy, Clone, Debug, PartialEq, Eq, Structural)]
pub struct Dependency {
    pub src_stage_mask: u32,
    pub dst_stage_mask: u32,
    pub barrier: BarrierDetail,
    pub latency: u32,
}

/// Two barrier payloads merge only when both name the same resource of the
/// same kind. Sequence edges never merge, not even with each other.
pub open spec fn spec_mergeable(a: BarrierDetail, b: BarrierDetail) -> bool {
    match (a, b) {
        (BarrierDetail::Buffer(x), BarrierDetail::Buffer(y)) => x.id == y.id,
        (BarrierDetail::Image(x), BarrierDetail::Image(y)) => x.id == y.id,
        _ => false,
    }
}

/// The merge of two dependencies on the same resource: stage masks and
/// access masks are OR-ed, the latency estimate takes the maximum. The
/// merged image layouts are assumed compatible.
pub open spec fn spec_merge(a: Dependency, b: Dependency) -> Dependency
    recommends
        spec_mergeable(a.barrier, b.barrier),
{
    Dependency {
        src_stage_mask: a.src_stage_mask | b.src_stage_mask,
        dst_stage_mask: a.dst_stage_mask | b.dst_stage_mask,
        barrier: (match (a.barrier, b.barrier) {
            (BarrierDetail::Buffer(x), BarrierDetail::Buffer(y)) => BarrierDetail::Buffer(
                BufferBarrier {
                    id: x.id,
                    src_access_mask: x.src_access_mask | y.src_access_mask,
                    dst_access_mask: x.dst_access_mask | y.dst_access_mask,
                },
            ),
            (BarrierDetail::Image(x), BarrierDetail::Image(y)) => BarrierDetail::Image(
                ImageBarrier {
                    id: x.id,
                    src_access_mask: x.src_access_mask | y.src_access_mask,
                    dst_access_mask: x.dst_access_mask | y.dst_access_mask,
                },
            ),
            _ => a.barrier,
        }),
        latency: if a.latency >= b.latency {
            a.latency
        } else {
            b.latency
        },
    }
}

/// Whether two barrier payloads merge; see `spec_mergeable`.
pub fn mergeable(a: &BarrierDetail, b: &BarrierDetail) -> (r: bool)
    ensures
        r == spec_mergeable(*a, *b),
{
    match (a, b) {
        (BarrierDetail::Buffer(x), BarrierDetail::Buffer(y)) => x.id == y.id,
        (BarrierDetail::Image(x), BarrierDetail::Image(y)) => x.id == y.id,
        _ => false,
    }
}

/// Merges two dependencies on the same resource; see `spec_merge`.
pub fn merge_dependency(a: &Dependency, b: &Dependency) -> (r: Dependency)
    requires
        spec_mergeable(a.barrier, b.barrier),
    ensures
        r == spec_merge(*a, *b),
{
    let barrier = match (&a.barrier, &b.barrier) {
        (BarrierDetail::Buffer(x), BarrierDetail::Buffer(y)) => BarrierDetail::Buffer(
            BufferBarrier {
                id: x.id,
                src_access_mask: x.src_access_mask | y.src_access_mask,
                dst_access_mask: x.dst_access_mask | y.dst_access_mask,
            },
        ),
        (BarrierDetail::Image(x), BarrierDetail::Image(y)) => BarrierDetail::Image(
            ImageBarrier {
                id: x.id,
                src_access_mask: x.src_access_mask | y.src_access_mask,
                dst_access_mask: x.dst_access_mask | y.dst_access_mask,
            },
        ),
        _ => a.barrier,
    };
    Dependency {
        src_stage_mask: a.src_stage_mask | b.src_stage_mask,
        dst_stage_mask: a.dst_stage_mask | b.dst_stage_mask,
        barrier,
        latency: if a.latency >= b.latency {
            a.latency
        } else {
            b.latency
        },
    }
}

} // verus!
