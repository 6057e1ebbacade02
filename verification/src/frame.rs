//! Frames: the top-level owner of one frame graph, one resource table and
//! a table of render passes. A frame is built incrementally — tasks are
//! declared, resource reads and writes add or merge dependency edges — and
//! consumed once at submission, when the scheduler linearizes the graph.

use vstd::prelude::*;

pub mod dependency;
pub mod graph;
pub mod graphstore;
pub mod resource;
pub mod sched;

use crate::frame::dependency::ACCESS_MEMORY_READ_BIT;
use crate::frame::dependency::BarrierDetail;
use crate::frame::dependency::BufferBarrier;
use crate::frame::dependency::Dependency;
use crate::frame::dependency::ImageBarrier;
use crate::frame::dependency::PIPELINE_STAGE_BOTTOM_OF_PIPE_BIT;
use crate::frame::graph::ComputeTask;
use crate::frame::graph::DependencyId;
use crate::frame::graph::FrameGraph;
use crate::frame::graph::GraphicsTask;
use crate::frame::graph::PresentTask;
use crate::frame::graph::Task;
use crate::frame::graph::TaskDetails;
use crate::frame::graph::TaskId;
use crate::frame::graph::spec_add_dependency;
use crate::frame::resource::BufferId;
use crate::frame::resource::ImageCreateInfo;
use crate::frame::resource::ImageId;
use crate::frame::resource::ImageResource;
use crate::frame::resource::Resources;
use crate::frame::sched::ScheduleOptimizationProfile;
use crate::frame::sched::spec_greedy_minimal;
use crate::frame::sched::spec_schedulable;
use crate::frame::sched::spec_valid_schedule;
use crate::format::Format;
use crate::image::dimension::Dimensions;
use crate::pipeline::AttachmentDescription;

verus! {

/// Index of a render pass in a frame's render pass table.
#[derive(Copy, Clone, Debug, PartialEq, Eq, Structural, Hash)]
pub struct RenderPassId(pub u32);

/// Errors of frame construction.
#[derive(Copy, Clone, Debug, PartialEq, Eq, Structural)]
pub enum FrameError {
    /// A usage-discipline violation: a read or write was declared through
    /// a handle that an earlier write has already retired. Recoverable;
    /// the caller restructures its declarations.
    UsageConflict,
    /// A configuration this frontend does not support yet; distinguished
    /// from usage mistakes on purpose.
    NotSupported,
}

/// Represents one output of a task: the typed handle a caller holds after
/// declaring that a task produces a resource, used to declare downstream
/// reads and writes.
///
/// The two one-shot gates enforce a single-writer, many-reader discipline
/// at runtime: reads may be declared repeatedly until a write is declared;
/// after a write, every further read or write through this same handle
/// fails, and the fresh handle returned by the writing task must be used
/// instead.
#[derive(Debug)]
pub struct TaskOutputRef<T> {
    /// ID of the resource in the frame resource table.
    pub id: T,
    /// Originating task.
    pub task: TaskId,
    /// What pipeline stage must have completed on the dependency.
    pub src_stage_mask: u32,
    /// Whether this handle has been consumed by a read declaration;
    /// prevents all writes. Use `set_read`; this stands open only so that
    /// contracts can speak of it.
    pub read: bool,
    /// Whether this handle has been consumed by a write declaration;
    /// prevents all subsequent reads and writes. Use `set_write`.
    pub written: bool,
    /// Estimated time until the resource is ready, a scheduling hint.
    pub latency: u32,
}

/// Whether a write may be declared through a handle in this gate state.
pub open spec fn spec_write_allowed(read: bool, written: bool) -> bool {
    !read && !written
}

/// Whether a read may be declared through a handle in this gate state.
pub open spec fn spec_read_allowed(written: bool) -> bool {
    !written
}

impl<T> TaskOutputRef<T> {
    /// Whether a read has been declared through this handle.
    pub open spec fn spec_read(&self) -> bool {
        self.read
    }

    /// Whether a write has been declared through this handle.
    pub open spec fn spec_written(&self) -> bool {
        self.written
    }

    /// A fresh handle: no read or write declared yet.
    pub fn new(id: T, task: TaskId, src_stage_mask: u32, latency: u32) -> (r: TaskOutputRef<T>)
        ensures
            r.id == id,
            r.task == task,
            r.src_stage_mask == src_stage_mask,
            r.latency == latency,
            !r.spec_read(),
            !r.spec_written(),
    {
        TaskOutputRef { id, task, src_stage_mask, read: false, written: false, latency }
    }

    /// Declares a write through this handle. Fails if any read or write
    /// was already declared; on success the handle admits nothing more.
    pub fn set_write(&mut self) -> (r: Result<(), ()>)
        ensures
            r is Ok <==> spec_write_allowed(old(self).spec_read(), old(self).spec_written()),
            r is Ok ==> final(self).spec_written() && final(self).spec_read() == old(self).spec_read(),
            r is Err ==> *final(self) == *old(self),
            final(self).id == old(self).id,
            final(self).task == old(self).task,
            final(self).src_stage_mask == old(self).src_stage_mask,
            final(self).latency == old(self).latency,
    {
        if self.read {
            return Err(());
        }
        if self.written {
            return Err(());
        }
        self.written = true;
        Ok(())
    }

    /// Declares a read through this handle. Fails if a write was already
    /// declared; reads may be declared repeatedly.
    pub fn set_read(&mut self) -> (r: Result<(), ()>)
        ensures
            r is Ok <==> spec_read_allowed(old(self).spec_written()),
            r is Ok ==> final(self).spec_read() && final(self).spec_written() == old(self).spec_written(),
            r is Err ==> *final(self) == *old(self),
            final(self).id == old(self).id,
            final(self).task == old(self).task,
            final(self).src_stage_mask == old(self).src_stage_mask,
            final(self).latency == old(self).latency,
    {
        if self.written {
            return Err(());
        }
        self.read = true;
        Ok(())
    }
}

/// A handle to a task's image output.
pub type ImageRef = TaskOutputRef<ImageId>;

/// A handle to a task's buffer output.
pub type BufferRef = TaskOutputRef<BufferId>;

/// A handle to a task's attachment output.
pub type AttachmentRef = TaskOutputRef<crate::frame::resource::AttachmentId>;

/// Single-writer law: once a write is declared through a handle, no
/// further write and no further read can be declared through it; and a
/// write is refused on a handle that was already read or written. Reads
/// keep further reads possible.
pub proof fn lemma_single_writer_gate(read: bool, written: bool)
    ensures
        spec_write_allowed(read, written) ==> !spec_write_allowed(read, true) && !spec_read_allowed(
            true,
        ),
        !spec_write_allowed(read, true),
        spec_read_allowed(written) ==> written == false,
        spec_write_allowed(read, written) ==> spec_read_allowed(written),
{
}

/// A render pass: an ordered, index-addressable group of attachment
/// images with matching descriptions, plus the tasks (subpasses) that
/// belong to it.
#[derive(Debug)]
pub struct RenderPass {
    attachments: Vec<ImageId>,
    attachments_desc: Vec<AttachmentDescription>,
    tasks: Vec<TaskId>,
}

impl RenderPass {
    /// The attachment images, in the order they were added.
    pub closed spec fn spec_attachments(&self) -> Seq<ImageId> {
        self.attachments@
    }

    /// The attachment descriptions, parallel to `spec_attachments`.
    pub closed spec fn spec_attachments_desc(&self) -> Seq<AttachmentDescription> {
        self.attachments_desc@
    }

    /// The tasks (subpasses) of this render pass, in declaration order.
    pub closed spec fn spec_tasks(&self) -> Seq<TaskId> {
        self.tasks@
    }

    /// An empty render pass.
    pub fn new() -> (r: RenderPass)
        ensures
            r.spec_attachments().len() == 0,
            r.spec_attachments_desc().len() == 0,
            r.spec_tasks().len() == 0,
    {
        RenderPass { attachments: Vec::new(), attachments_desc: Vec::new(), tasks: Vec::new() }
    }

    /// Adds an attachment with its description; returns its index within
    /// this render pass.
    pub fn add_attachment(&mut self, img: ImageId, desc: AttachmentDescription) -> (i: usize)
        ensures
            final(self).spec_attachments() == old(self).spec_attachments().push(img),
            final(self).spec_attachments_desc() == old(self).spec_attachments_desc().push(desc),
            final(self).spec_tasks() == old(self).spec_tasks(),
            i == old(self).spec_attachments().len(),
    {
        let i = self.attachments.len();
        self.attachments.push(img);
        self.attachments_desc.push(desc);
        i
    }
}

/// The device and queue state a frame is built against. Only what the
/// frame's own logic reads is held here; the device itself stays with the
/// caller.
#[derive(Debug)]
pub struct Context {
    /// The queue that present tasks target.
    pub present_queue: u32,
}

impl Context {
    /// Creates a frame bound to this context.
    pub fn new_frame(&self) -> (r: Frame)
        ensures
            r.graph.spec_tasks().len() == 0,
            r.graph.spec_edges().len() == 0,
            r.graph.wf(),
            r.resources.spec_images().len() == 0,
            r.resources.spec_buffers().len() == 0,
            r.spec_renderpasses().len() == 0,
            r.present_queue == self.present_queue,
    {
        Frame {
            present_queue: self.present_queue,
            graph: FrameGraph::new(),
            resources: Resources::new(),
            renderpasses: Vec::new(),
        }
    }
}

/// A frame: manages the tasks and transient resources of one rendering
/// iteration. Built single-threaded, consumed at `submit`.
#[derive(Debug)]
pub struct Frame {
    /// The queue that present tasks target, taken from the context.
    pub present_queue: u32,
    /// The DAG of tasks.
    pub graph: FrameGraph,
    /// Resource table.
    pub resources: Resources,
    /// Table of render passes.
    pub renderpasses: Vec<RenderPass>,
}

impl Frame {
    /// The render passes, in creation order.
    pub closed spec fn spec_renderpasses(&self) -> Seq<RenderPass> {
        self.renderpasses@
    }

    /// Creates a new render pass and returns its id.
    pub fn new_renderpass(&mut self) -> (r: RenderPassId)
        requires
            old(self).spec_renderpasses().len() < u32::MAX,
        ensures
            final(self).spec_renderpasses().len() == old(self).spec_renderpasses().len() + 1,
            final(self).spec_renderpasses()[old(self).spec_renderpasses().len() as int]
                .spec_attachments().len() == 0,
            final(self).spec_renderpasses()[old(self).spec_renderpasses().len() as int]
                .spec_attachments_desc().len() == 0,
            final(self).spec_renderpasses()[old(self).spec_renderpasses().len() as int].spec_tasks().len()
                == 0,
            forall|i: int|
                0 <= i < old(self).spec_renderpasses().len() ==> final(self).spec_renderpasses()[i]
                    == #[trigger] old(self).spec_renderpasses()[i],
            r.0 == old(self).spec_renderpasses().len(),
            final(self).graph == old(self).graph,
            final(self).resources == old(self).resources,
            final(self).present_queue == old(self).present_queue,
    {
        let r = RenderPassId(self.renderpasses.len() as u32);
        self.renderpasses.push(RenderPass::new());
        r
    }

    /// Creates a compute task and returns its id.
    pub fn compute_task(&mut self, name: String) -> (t: TaskId)
        requires
            old(self).graph.spec_tasks().len() < u32::MAX,
        ensures
            final(self).graph.spec_tasks() == old(self).graph.spec_tasks().push(
                (Task { name, queue: 0, details: TaskDetails::Compute(ComputeTask {}) }),
            ),
            final(self).graph.spec_edges() == old(self).graph.spec_edges(),
            t == old(self).graph.spec_tasks().len(),
            old(self).graph.wf() ==> final(self).graph.wf(),
            final(self).resources == old(self).resources,
            final(self).spec_renderpasses() == old(self).spec_renderpasses(),
            final(self).present_queue == old(self).present_queue,
    {
        self.graph.create_task_on_queue(name, 0, TaskDetails::Compute(ComputeTask {}))
    }

    /// Creates a graphics task as a subpass of the given render pass and
    /// returns its id.
    pub fn graphics_subpass(&mut self, name: String, renderpass: RenderPassId) -> (t: TaskId)
        requires
            renderpass.0 < old(self).spec_renderpasses().len(),
            old(self).graph.spec_tasks().len() < u32::MAX,
        ensures
            final(self).graph.spec_tasks() == old(self).graph.spec_tasks().push(
                (Task {
                    name,
                    queue: 0,
                    details: TaskDetails::Graphics(GraphicsTask { renderpass }),
                }),
            ),
            final(self).graph.spec_edges() == old(self).graph.spec_edges(),
            t == old(self).graph.spec_tasks().len(),
            old(self).graph.wf() ==> final(self).graph.wf(),
            final(self).resources == old(self).resources,
            final(self).spec_renderpasses().len() == old(self).spec_renderpasses().len(),
            final(self).spec_renderpasses()[renderpass.0 as int].spec_tasks() == old(self).spec_renderpasses()[renderpass.0 as int].spec_tasks().push(t),
            forall|i: int|
                0 <= i < old(self).spec_renderpasses().len() && i != renderpass.0 ==> final(self).spec_renderpasses()[i] == #[trigger] old(self).spec_renderpasses()[i],
            final(self).present_queue == old(self).present_queue,
    {
        let t = self.graph.create_task_on_queue(
            name,
            0,
            TaskDetails::Graphics(GraphicsTask { renderpass }),
        );
        let ghost rps0 = self.renderpasses@;
        let mut rp = self.renderpasses.remove(renderpass.0 as usize);
        rp.tasks.push(t);
        let ghost rpg = rp;
        self.renderpasses.insert(renderpass.0 as usize, rp);
        proof {
            assert(self.renderpasses@ =~= rps0.update(renderpass.0 as int, rpg));
        }
        t
    }

    /// Creates a transient image and returns its handle.
    pub fn create_image(&mut self, name: String, create_info: ImageCreateInfo) -> (id: ImageId)
        requires
            old(self).resources.spec_images().len() < u32::MAX,
        ensures
            final(self).resources.spec_images() == old(self).resources.spec_images().push(
                ImageResource::Transient { name, info: create_info },
            ),
            final(self).resources.spec_buffers() == old(self).resources.spec_buffers(),
            id.0 == old(self).resources.spec_images().len(),
            final(self).graph == old(self).graph,
            final(self).spec_renderpasses() == old(self).spec_renderpasses(),
            final(self).present_queue == old(self).present_queue,
    {
        self.resources.create_image(name, create_info)
    }

    /// Creates a transient 2D image with a single mip level, a single
    /// layer and no multisampling; its usage is inferred from the graph
    /// later, so it starts empty.
    pub fn create_image_2d(&mut self, name: String, extent: (u32, u32), format: Format) -> (id:
        ImageId)
        requires
            old(self).resources.spec_images().len() < u32::MAX,
        ensures
            final(self).resources.spec_images() == old(self).resources.spec_images().push(
                ImageResource::Transient {
                    name,
                    info: (ImageCreateInfo {
                        format,
                        dimensions: Dimensions::Dim2d { width: extent.0, height: extent.1 },
                        mip_levels: 1,
                        array_layers: 1,
                        samples: 1,
                        usage: 0,
                    }),
                },
            ),
            final(self).resources.spec_buffers() == old(self).resources.spec_buffers(),
            id.0 == old(self).resources.spec_images().len(),
            final(self).graph == old(self).graph,
            final(self).spec_renderpasses() == old(self).spec_renderpasses(),
            final(self).present_queue == old(self).present_queue,
    {
        let (width, height) = extent;
        let desc = ImageCreateInfo {
            format,
            dimensions: Dimensions::Dim2d { width, height },
            mip_levels: 1,
            array_layers: 1,
            samples: 1,
            usage: 0,
        };
        self.create_image(name, desc)
    }

    /// Imports a persistent image for use in the frame graph. An `import`
    /// task is created as the image's producer, and the returned handle is
    /// fresh: nothing has been read or written through it.
    pub fn import_image(&mut self, name: String) -> (r: ImageRef)
        requires
            old(self).resources.spec_images().len() < u32::MAX,
            old(self).graph.spec_tasks().len() < u32::MAX,
        ensures
            final(self).resources.spec_images() == old(self).resources.spec_images().push(
                ImageResource::Imported { name },
            ),
            final(self).resources.spec_buffers() == old(self).resources.spec_buffers(),
            final(self).graph.spec_tasks().len() == old(self).graph.spec_tasks().len() + 1,
            final(self).graph.spec_tasks()[old(self).graph.spec_tasks().len() as int].details
                == TaskDetails::Other,
            final(self).graph.spec_tasks()[old(self).graph.spec_tasks().len() as int].queue == 0,
            final(self).graph.spec_tasks()[old(self).graph.spec_tasks().len() as int].name@
                == "import"@,
            forall|i: int|
                0 <= i < old(self).graph.spec_tasks().len() ==> final(self).graph.spec_tasks()[i]
                    == #[trigger] old(self).graph.spec_tasks()[i],
            final(self).graph.spec_edges() == old(self).graph.spec_edges(),
            old(self).graph.wf() ==> final(self).graph.wf(),
            r.id.0 == old(self).resources.spec_images().len(),
            r.task == old(self).graph.spec_tasks().len(),
            r.src_stage_mask == PIPELINE_STAGE_BOTTOM_OF_PIPE_BIT,
            r.latency == 0,
            !r.spec_read(),
            !r.spec_written(),
            final(self).spec_renderpasses() == old(self).spec_renderpasses(),
            final(self).present_queue == old(self).present_queue,
    {
        let task = self.graph.create_task_on_queue(
            "import".to_owned(),
            0,
            TaskDetails::Other,
        );
        let id = self.resources.add_imported_image(name);
        TaskOutputRef::new(id, task, PIPELINE_STAGE_BOTTOM_OF_PIPE_BIT, 0)
    }

    /// Declares that `task` reads the image behind `img`. On success the
    /// dependency edge from the producing task is added or merged, with
    /// the handle's source stage mask, the given destination masks and the
    /// handle's latency estimate; the handle stays usable for further
    /// reads. Fails if and only if a write was already declared through
    /// the handle, leaving the frame unchanged.
    pub fn task_read_image(
        &mut self,
        task: TaskId,
        img: &mut ImageRef,
        dst_stage_mask: u32,
        src_access_mask: u32,
        dst_access_mask: u32,
    ) -> (r: Result<DependencyId, FrameError>)
        requires
            task < old(self).graph.spec_tasks().len(),
            old(img).task < old(self).graph.spec_tasks().len(),
            old(self).graph.spec_edges().len() < u32::MAX,
        ensures
            r is Ok <==> spec_read_allowed(old(img).spec_written()),
            r is Ok ==> {
                &&& final(img).spec_read()
                &&& final(img).spec_written() == old(img).spec_written()
                &&& (final(self).graph.spec_edges(), r->Ok_0 as int) == spec_add_dependency(
                    old(self).graph.spec_edges(),
                    old(img).task,
                    task,
                    (Dependency {
                        src_stage_mask: old(img).src_stage_mask,
                        dst_stage_mask,
                        barrier: BarrierDetail::Image(
                            (ImageBarrier { id: old(img).id, src_access_mask, dst_access_mask }),
                        ),
                        latency: old(img).latency,
                    }),
                )
            },
            r is Err ==> r->Err_0 == FrameError::UsageConflict && *final(img) == *old(img)
                && final(self).graph.spec_edges() == old(self).graph.spec_edges(),
            final(self).graph.spec_tasks() == old(self).graph.spec_tasks(),
            old(self).graph.wf() ==> final(self).graph.wf(),
            final(img).id == old(img).id,
            final(img).task == old(img).task,
            final(img).src_stage_mask == old(img).src_stage_mask,
            final(img).latency == old(img).latency,
            final(self).resources == old(self).resources,
            final(self).spec_renderpasses() == old(self).spec_renderpasses(),
            final(self).present_queue == old(self).present_queue,
    {
        match img.set_read() {
            Ok(()) => {
                let dependency = Dependency {
                    src_stage_mask: img.src_stage_mask,
                    dst_stage_mask,
                    barrier: BarrierDetail::Image(
                        ImageBarrier { id: img.id, src_access_mask, dst_access_mask },
                    ),
                    latency: img.latency,
                };
                let d = self.graph.add_dependency(img.task, task, dependency);
                Ok(d)
            },
            Err(()) => Err(FrameError::UsageConflict),
        }
    }

    /// Declares that `task` rewrites the image behind `img`, producing a
    /// new version. On success the dependency edge from the producing task
    /// is added or merged and a fresh handle bound to `task` comes back;
    /// the old handle is retired and admits nothing more. Fails if and
    /// only if the handle was already read or written, leaving the frame
    /// unchanged.
    pub fn task_write_image(
        &mut self,
        task: TaskId,
        img: &mut ImageRef,
        dst_stage_mask: u32,
        src_access_mask: u32,
        dst_access_mask: u32,
        new_src_stage_mask: u32,
        new_latency: u32,
    ) -> (r: Result<ImageRef, FrameError>)
        requires
            task < old(self).graph.spec_tasks().len(),
            old(img).task < old(self).graph.spec_tasks().len(),
            old(self).graph.spec_edges().len() < u32::MAX,
        ensures
            r is Ok <==> spec_write_allowed(old(img).spec_read(), old(img).spec_written()),
            r is Ok ==> {
                &&& final(img).spec_written()
                &&& final(self).graph.spec_edges() == spec_add_dependency(
                    old(self).graph.spec_edges(),
                    old(img).task,
                    task,
                    (Dependency {
                        src_stage_mask: old(img).src_stage_mask,
                        dst_stage_mask,
                        barrier: BarrierDetail::Image(
                            (ImageBarrier { id: old(img).id, src_access_mask, dst_access_mask }),
                        ),
                        latency: old(img).latency,
                    }),
                ).0
                &&& r->Ok_0.id == old(img).id
                &&& r->Ok_0.task == task
                &&& r->Ok_0.src_stage_mask == new_src_stage_mask
                &&& r->Ok_0.latency == new_latency
                &&& !r->Ok_0.spec_read()
                &&& !r->Ok_0.spec_written()
            },
            r is Err ==> r->Err_0 == FrameError::UsageConflict && *final(img) == *old(img)
                && final(self).graph.spec_edges() == old(self).graph.spec_edges(),
            final(self).graph.spec_tasks() == old(self).graph.spec_tasks(),
            old(self).graph.wf() ==> final(self).graph.wf(),
            final(img).id == old(img).id,
            final(img).task == old(img).task,
            final(self).resources == old(self).resources,
            final(self).spec_renderpasses() == old(self).spec_renderpasses(),
            final(self).present_queue == old(self).present_queue,
    {
        match img.set_write() {
            Ok(()) => {
                let dependency = Dependency {
                    src_stage_mask: img.src_stage_mask,
                    dst_stage_mask,
                    barrier: BarrierDetail::Image(
                        ImageBarrier { id: img.id, src_access_mask, dst_access_mask },
                    ),
                    latency: img.latency,
                };
                let _ = self.graph.add_dependency(img.task, task, dependency);
                Ok(TaskOutputRef::new(img.id, task, new_src_stage_mask, new_latency))
            },
            Err(()) => Err(FrameError::UsageConflict),
        }
    }

    /// Declares that `task` reads the buffer behind `buf`; the buffer
    /// counterpart of `task_read_image`.
    pub fn task_read_buffer(
        &mut self,
        task: TaskId,
        buf: &mut BufferRef,
        dst_stage_mask: u32,
        src_access_mask: u32,
        dst_access_mask: u32,
    ) -> (r: Result<DependencyId, FrameError>)
        requires
            task < old(self).graph.spec_tasks().len(),
            old(buf).task < old(self).graph.spec_tasks().len(),
            old(self).graph.spec_edges().len() < u32::MAX,
        ensures
            r is Ok <==> spec_read_allowed(old(buf).spec_written()),
            r is Ok ==> {
                &&& final(buf).spec_read()
                &&& final(buf).spec_written() == old(buf).spec_written()
                &&& (final(self).graph.spec_edges(), r->Ok_0 as int) == spec_add_dependency(
                    old(self).graph.spec_edges(),
                    old(buf).task,
                    task,
                    (Dependency {
                        src_stage_mask: old(buf).src_stage_mask,
                        dst_stage_mask,
                        barrier: BarrierDetail::Buffer(
                            (BufferBarrier { id: old(buf).id, src_access_mask, dst_access_mask }),
                        ),
                        latency: old(buf).latency,
                    }),
                )
            },
            r is Err ==> r->Err_0 == FrameError::UsageConflict && *final(buf) == *old(buf)
                && final(self).graph.spec_edges() == old(self).graph.spec_edges(),
            final(self).graph.spec_tasks() == old(self).graph.spec_tasks(),
            old(self).graph.wf() ==> final(self).graph.wf(),
            final(buf).id == old(buf).id,
            final(buf).task == old(buf).task,
            final(buf).src_stage_mask == old(buf).src_stage_mask,
            final(buf).latency == old(buf).latency,
            final(self).resources == old(self).resources,
            final(self).spec_renderpasses() == old(self).spec_renderpasses(),
            final(self).present_queue == old(self).present_queue,
    {
        match buf.set_read() {
            Ok(()) => {
                let dependency = Dependency {
                    src_stage_mask: buf.src_stage_mask,
                    dst_stage_mask,
                    barrier: BarrierDetail::Buffer(
                        BufferBarrier { id: buf.id, src_access_mask, dst_access_mask },
                    ),
                    latency: buf.latency,
                };
                let d = self.graph.add_dependency(buf.task, task, dependency);
                Ok(d)
            },
            Err(()) => Err(FrameError::UsageConflict),
        }
    }

    /// Declares that `task` rewrites the buffer behind `buf`, producing a
    /// new version; the buffer counterpart of `task_write_image`.
    pub fn task_write_buffer(
        &mut self,
        task: TaskId,
        buf: &mut BufferRef,
        dst_stage_mask: u32,
        src_access_mask: u32,
        dst_access_mask: u32,
        new_src_stage_mask: u32,
        new_latency: u32,
    ) -> (r: Result<BufferRef, FrameError>)
        requires
            task < old(self).graph.spec_tasks().len(),
            old(buf).task < old(self).graph.spec_tasks().len(),
            old(self).graph.spec_edges().len() < u32::MAX,
        ensures
            r is Ok <==> spec_write_allowed(old(buf).spec_read(), old(buf).spec_written()),
            r is Ok ==> {
                &&& final(buf).spec_written()
                &&& final(self).graph.spec_edges() == spec_add_dependency(
                    old(self).graph.spec_edges(),
                    old(buf).task,
                    task,
                    (Dependency {
                        src_stage_mask: old(buf).src_stage_mask,
                        dst_stage_mask,
                        barrier: BarrierDetail::Buffer(
                            (BufferBarrier { id: old(buf).id, src_access_mask, dst_access_mask }),
                        ),
                        latency: old(buf).latency,
                    }),
                ).0
                &&& r->Ok_0.id == old(buf).id
                &&& r->Ok_0.task == task
                &&& r->Ok_0.src_stage_mask == new_src_stage_mask
                &&& r->Ok_0.latency == new_latency
                &&& !r->Ok_0.spec_read()
                &&& !r->Ok_0.spec_written()
            },
            r is Err ==> r->Err_0 == FrameError::UsageConflict && *final(buf) == *old(buf)
                && final(self).graph.spec_edges() == old(self).graph.spec_edges(),
            final(self).graph.spec_tasks() == old(self).graph.spec_tasks(),
            old(self).graph.wf() ==> final(self).graph.wf(),
            final(buf).id == old(buf).id,
            final(buf).task == old(buf).task,
            final(self).resources == old(self).resources,
            final(self).spec_renderpasses() == old(self).spec_renderpasses(),
            final(self).present_queue == old(self).present_queue,
    {
        match buf.set_write() {
            Ok(()) => {
                let dependency = Dependency {
                    src_stage_mask: buf.src_stage_mask,
                    dst_stage_mask,
                    barrier: BarrierDetail::Buffer(
                        BufferBarrier { id: buf.id, src_access_mask, dst_access_mask },
                    ),
                    latency: buf.latency,
                };
                let _ = self.graph.add_dependency(buf.task, task, dependency);
                Ok(TaskOutputRef::new(buf.id, task, new_src_stage_mask, new_latency))
            },
            Err(()) => Err(FrameError::UsageConflict),
        }
    }

    /// Creates a present task for the image: the handle is read, a
    /// dependency from its producing task is added, and a trailing task
    /// on the present queue marks the hand-off to the swapchain. Fails if
    /// and only if a write was already declared through the handle.
    pub fn present(&mut self, img: &mut ImageRef) -> (r: Result<TaskId, FrameError>)
        requires
            old(img).task < old(self).graph.spec_tasks().len(),
            old(self).graph.spec_tasks().len() < u32::MAX,
            old(self).graph.spec_edges().len() < u32::MAX,
        ensures
            r is Ok <==> spec_read_allowed(old(img).spec_written()),
            r is Ok ==> {
                &&& r->Ok_0 == old(self).graph.spec_tasks().len()
                &&& final(self).graph.spec_tasks().len() == old(self).graph.spec_tasks().len() + 1
                &&& final(self).graph.spec_tasks()[r->Ok_0 as int].details == TaskDetails::Present(
                    PresentTask { image: old(img).id },
                )
                &&& final(self).graph.spec_tasks()[r->Ok_0 as int].queue == old(self).present_queue
                &&& final(self).graph.spec_tasks()[r->Ok_0 as int].name@ == "present"@
                &&& forall|i: int|
                    0 <= i < old(self).graph.spec_tasks().len() ==> final(self).graph.spec_tasks()[i]
                        == #[trigger] old(self).graph.spec_tasks()[i]
                &&& final(self).graph.spec_edges() == spec_add_dependency(
                    old(self).graph.spec_edges(),
                    old(img).task,
                    (old(self).graph.spec_tasks().len() as usize),
                    (Dependency {
                        src_stage_mask: old(img).src_stage_mask,
                        dst_stage_mask: PIPELINE_STAGE_BOTTOM_OF_PIPE_BIT,
                        barrier: BarrierDetail::Image(
                            (ImageBarrier {
                                id: old(img).id,
                                src_access_mask: 0,
                                dst_access_mask: ACCESS_MEMORY_READ_BIT,
                            }),
                        ),
                        latency: old(img).latency,
                    }),
                ).0
                &&& final(img).spec_read()
            },
            r is Err ==> r->Err_0 == FrameError::UsageConflict && *final(img) == *old(img)
                && final(self).graph.spec_tasks() == old(self).graph.spec_tasks() && final(self).graph.spec_edges() == old(self).graph.spec_edges(),
            old(self).graph.wf() ==> final(self).graph.wf(),
            final(img).id == old(img).id,
            final(img).task == old(img).task,
            final(self).resources == old(self).resources,
            final(self).spec_renderpasses() == old(self).spec_renderpasses(),
            final(self).present_queue == old(self).present_queue,
    {
        match img.set_read() {
            Ok(()) => {
                let queue = self.present_queue;
                let t = self.graph.create_task_on_queue(
                    "present".to_owned(),
                    queue,
                    TaskDetails::Present(PresentTask { image: img.id }),
                );
                let dependency = Dependency {
                    src_stage_mask: img.src_stage_mask,
                    dst_stage_mask: PIPELINE_STAGE_BOTTOM_OF_PIPE_BIT,
                    barrier: BarrierDetail::Image(
                        ImageBarrier {
                            id: img.id,
                            src_access_mask: 0,
                            dst_access_mask: ACCESS_MEMORY_READ_BIT,
                        },
                    ),
                    latency: img.latency,
                };
                let _ = self.graph.add_dependency(img.task, t, dependency);
                Ok(t)
            },
            Err(()) => Err(FrameError::UsageConflict),
        }
    }

    /// Creates a task that is sequenced after all the given tasks: one
    /// sequence edge per listed task, in order.
    pub fn make_sequence_task(&mut self, name: String, tasks: &Vec<TaskId>) -> (t: TaskId)
        requires
            forall|i: int| 0 <= i < tasks@.len() ==> #[trigger] tasks@[i] < old(self).graph.spec_tasks().len(),
            old(self).graph.spec_tasks().len() < u32::MAX,
            old(self).graph.spec_edges().len() + tasks@.len() < u32::MAX,
        ensures
            t == old(self).graph.spec_tasks().len(),
            final(self).graph.spec_tasks().len() == old(self).graph.spec_tasks().len() + 1,
            final(self).graph.spec_tasks()[t as int] == (Task {
                name,
                queue: 0,
                details: TaskDetails::Other,
            }),
            forall|i: int|
                0 <= i < old(self).graph.spec_tasks().len() ==> final(self).graph.spec_tasks()[i]
                    == #[trigger] old(self).graph.spec_tasks()[i],
            final(self).graph.spec_edges().len() == old(self).graph.spec_edges().len()
                + tasks@.len(),
            forall|i: int|
                0 <= i < old(self).graph.spec_edges().len() ==> final(self).graph.spec_edges()[i]
                    == #[trigger] old(self).graph.spec_edges()[i],
            forall|i: int|
                0 <= i < tasks@.len() ==> {
                    let e = #[trigger] final(self).graph.spec_edges()[old(self).graph.spec_edges().len() + i];
                    e.src == tasks@[i] && e.dst == t && e.dependency.barrier
                        == BarrierDetail::Sequence
                },
            old(self).graph.wf() ==> final(self).graph.wf(),
            final(self).resources == old(self).resources,
            final(self).spec_renderpasses() == old(self).spec_renderpasses(),
            final(self).present_queue == old(self).present_queue,
    {
        let dst_task = self.graph.create_task_on_queue(name, 0, TaskDetails::Other);
        let ghost edges0 = self.graph.spec_edges();
        let ghost tasks1 = self.graph.spec_tasks();
        let mut i: usize = 0;
        while i < tasks.len()
            invariant
                0 <= i <= tasks@.len(),
                edges0.len() + tasks@.len() < u32::MAX,
                self.graph.spec_tasks() == tasks1,
                dst_task < tasks1.len(),
                forall|j: int| 0 <= j < tasks@.len() ==> #[trigger] tasks@[j] < tasks1.len(),
                self.graph.spec_edges().len() == edges0.len() + i,
                forall|j: int|
                    0 <= j < edges0.len() ==> #[trigger] self.graph.spec_edges()[j] == edges0[j],
                forall|j: int|
                    0 <= j < i ==> {
                        let e = #[trigger] self.graph.spec_edges()[edges0.len() + j];
                        e.src == tasks@[j] && e.dst == dst_task && e.dependency.barrier
                            == BarrierDetail::Sequence
                    },
                old(self).graph.wf() ==> self.graph.wf(),
                self.resources == old(self).resources,
                self.renderpasses@ == old(self).renderpasses@,
                self.present_queue == old(self).present_queue,
            decreases tasks@.len() - i,
        {
            let src = tasks[i];
            let _ = self.graph.add_sequence_dependency(src, dst_task);
            i = i + 1;
        }
        dst_task
    }

    /// Consumes the frame and returns the execution order the scheduler
    /// chose for it, or `None` if the declared dependencies are cyclic.
    /// Scheduling uses the aliasing-friendly profile.
    pub fn submit(self) -> (r: Option<Vec<TaskId>>)
        requires
            self.graph.wf(),
        ensures
            r is Some <==> spec_schedulable(
                self.graph.spec_tasks().len() as int,
                self.graph.spec_edges(),
            ),
            r is Some ==> spec_valid_schedule(
                self.graph.spec_tasks().len() as int,
                self.graph.spec_edges(),
                r->Some_0@,
            ) && spec_greedy_minimal(self.graph.spec_edges(), r->Some_0@),
    {
        self.graph.schedule(ScheduleOptimizationProfile::MaximizeAliasing)
    }
}

} // verus!
