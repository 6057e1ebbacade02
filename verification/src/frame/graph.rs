//! The frame graph: tasks as nodes, dependencies as edges, held in flat
//! arenas indexed by opaque integer ids. Built incrementally while a frame
//! is declared, then read by the scheduler.

use vstd::prelude::*;

use crate::frame::dependency::BarrierDetail;
use crate::frame::dependency::Dependency;
use crate::frame::dependency::PIPELINE_STAGE_BOTTOM_OF_PIPE_BIT;
use crate::frame::dependency::PIPELINE_STAGE_TOP_OF_PIPE_BIT;
use crate::frame::dependency::merge_dependency;
use crate::frame::dependency::mergeable;
use crate::frame::dependency::spec_merge;
use crate::frame::dependency::spec_mergeable;
use crate::frame::graphstore::TaskGraph;
use crate::frame::graphstore::graph_edge_list;
use crate::frame::graphstore::graph_tasks;
use crate::frame::graphstore::pg_add_edge;
use crate::frame::graphstore::pg_add_task;
use crate::frame::graphstore::pg_edge_count;
use crate::frame::graphstore::pg_edge_dependency;
use crate::frame::graphstore::pg_edge_endpoints;
use crate::frame::graphstore::pg_new;
use crate::frame::graphstore::pg_task;
use crate::frame::graphstore::pg_task_count;
use crate::frame::graphstore::pg_set_edge_dependency;
use crate::frame::resource::BufferId;
use crate::frame::resource::ImageId;
use crate::frame::RenderPassId;

verus! {

/// Index of a task (node) in a frame graph.
pub type TaskId = usize;

/// Index of a dependency (edge) in a frame graph.
pub type DependencyId = usize;

/// Payload of a graphics task: the render pass it draws into.
#[derive(Copy, Clone, Debug, PartialEq, Eq, Structural)]
pub struct GraphicsTask {
    pub renderpass: RenderPassId,
}

/// Payload of a compute task.
#[derive(Copy, Clone, Debug, PartialEq, Eq, Structural)]
pub struct ComputeTask {}

/// Payload of a transfer task.
#[derive(Copy, Clone, Debug, PartialEq, Eq, Structural)]
pub struct TransferTask {}

/// Payload of a present task: the image handed to the swapchain.
#[derive(Copy, Clone, Debug, PartialEq, Eq, Structural)]
pub struct PresentTask {
    pub image: ImageId,
}

/// Payload of a ray-tracing task; reserved for a future workload kind.
#[derive(Copy, Clone, Debug, PartialEq, Eq, Structural)]
pub struct RayTracingTask {}

/// The kind of workload a task performs.
#[derive(Copy, Clone, Debug, PartialEq, Eq, Structural)]
pub enum TaskDetails {
    Graphics(GraphicsTask),
    Compute(ComputeTask),
    Transfer(TransferTask),
    Present(PresentTask),
    RayTracing(RayTracingTask),
    /// A task that only sequences others and performs no work itself.
    Other,
}

/// One operation in the frame graph.
#[derive(Debug)]
pub struct Task {
    /// Display name of the task.
    pub name: String,
    /// Index of the hardware queue the task runs on; zero is the default
    /// queue.
    pub queue: u32,
    /// The kind of workload.
    pub details: TaskDetails,
}

/// One edge of the frame graph: the dependency of `dst` on `src`.
#[derive(Copy, Clone, Debug, PartialEq, Eq, Structural)]
pub struct DependencyEdge {
    pub src: TaskId,
    pub dst: TaskId,
    pub dependency: Dependency,
}

/// The first edge between `src` and `dst` whose barrier merges with
/// `barrier`, if any.
pub open spec fn spec_find_merge(
    es: Seq<DependencyEdge>,
    src: TaskId,
    dst: TaskId,
    barrier: BarrierDetail,
) -> Option<int>
    decreases es.len(),
{
    if es.len() == 0 {
        None
    } else if es.first().src == src && es.first().dst == dst && spec_mergeable(
        es.first().dependency.barrier,
        barrier,
    ) {
        Some(0)
    } else {
        match spec_find_merge(es.drop_first(), src, dst, barrier) {
            None => None,
            Some(i) => Some(i + 1),
        }
    }
}

/// What `add_dependency` leaves in the edge table: either the matching
/// edge is replaced by the merge, or the new edge is appended.
pub open spec fn spec_add_dependency(
    es: Seq<DependencyEdge>,
    src: TaskId,
    dst: TaskId,
    dependency: Dependency,
) -> (Seq<DependencyEdge>, int) {
    match spec_find_merge(es, src, dst, dependency.barrier) {
        Some(i) => (
            es.update(
                i,
                DependencyEdge { src, dst, dependency: spec_merge(es[i].dependency, dependency) },
            ),
            i,
        ),
        None => (es.push(DependencyEdge { src, dst, dependency }), es.len() as int),
    }
}

/// Task `t` uses the image on an incoming edge.
pub open spec fn spec_has_incoming_image(es: Seq<DependencyEdge>, img: ImageId, t: int) -> bool {
    exists|k: int|
        0 <= k < es.len() && #[trigger] es[k].dst == t && es[k].dependency.barrier.spec_image_id()
            == Some(img)
}

/// Task `t` passes the image on to an outgoing edge.
pub open spec fn spec_has_outgoing_image(es: Seq<DependencyEdge>, img: ImageId, t: int) -> bool {
    exists|k: int|
        0 <= k < es.len() && #[trigger] es[k].src == t && es[k].dependency.barrier.spec_image_id()
            == Some(img)
}

/// Task `t` is a last use of the image: it consumes the image and no edge
/// carries the image out of it.
pub open spec fn spec_is_last_use_of_image(es: Seq<DependencyEdge>, img: ImageId, t: int) -> bool {
    spec_has_incoming_image(es, img, t) && !spec_has_outgoing_image(es, img, t)
}

/// Task `t` uses the buffer on an incoming edge.
pub open spec fn spec_has_incoming_buffer(es: Seq<DependencyEdge>, buf: BufferId, t: int) -> bool {
    exists|k: int|
        0 <= k < es.len() && #[trigger] es[k].dst == t && es[k].dependency.barrier.spec_buffer_id()
            == Some(buf)
}

/// Task `t` passes the buffer on to an outgoing edge.
pub open spec fn spec_has_outgoing_buffer(es: Seq<DependencyEdge>, buf: BufferId, t: int) -> bool {
    exists|k: int|
        0 <= k < es.len() && #[trigger] es[k].src == t && es[k].dependency.barrier.spec_buffer_id()
            == Some(buf)
}

/// Task `t` is a last use of the buffer.
pub open spec fn spec_is_last_use_of_buffer(es: Seq<DependencyEdge>, buf: BufferId, t: int) -> bool {
    spec_has_incoming_buffer(es, buf, t) && !spec_has_outgoing_buffer(es, buf, t)
}

/// The frame graph: a directed graph whose nodes are tasks and whose
/// edges are dependencies, held in a `petgraph` arena and addressed by
/// opaque `TaskId` and `DependencyId` indices.
#[derive(Debug)]
pub struct FrameGraph {
    g: TaskGraph,
}

impl FrameGraph {
    /// The tasks, in creation order; a `TaskId` indexes this sequence.
    pub closed spec fn spec_tasks(&self) -> Seq<Task> {
        graph_tasks(self.g)
    }

    /// The edges, in creation order; a `DependencyId` indexes this sequence.
    pub closed spec fn spec_edges(&self) -> Seq<DependencyEdge> {
        graph_edge_list(self.g)
    }

    /// Every edge endpoint names an existing task.
    pub open spec fn wf(&self) -> bool {
        forall|k: int|
            0 <= k < self.spec_edges().len() ==> (#[trigger] self.spec_edges()[k]).src
                < self.spec_tasks().len() && self.spec_edges()[k].dst < self.spec_tasks().len()
    }

    /// An empty graph.
    pub fn new() -> (r: FrameGraph)
        ensures
            r.spec_tasks().len() == 0,
            r.spec_edges().len() == 0,
            r.wf(),
    {
        FrameGraph { g: pg_new() }
    }

    /// Number of tasks.
    pub fn task_count(&self) -> (n: usize)
        ensures
            n == self.spec_tasks().len(),
    {
        pg_task_count(&self.g)
    }

    /// Number of edges.
    pub fn edge_count(&self) -> (n: usize)
        ensures
            n == self.spec_edges().len(),
    {
        pg_edge_count(&self.g)
    }

    /// The task behind an id.
    pub fn task(&self, t: TaskId) -> (r: &Task)
        requires
            t < self.spec_tasks().len(),
        ensures
            *r == self.spec_tasks()[t as int],
    {
        pg_task(&self.g, t)
    }

    /// The edge behind an id.
    pub fn edge(&self, d: DependencyId) -> (r: DependencyEdge)
        requires
            d < self.spec_edges().len(),
        ensures
            r == self.spec_edges()[d as int],
    {
        let (src, dst) = pg_edge_endpoints(&self.g, d);
        let dependency = pg_edge_dependency(&self.g, d);
        DependencyEdge { src, dst, dependency }
    }

    /// Creates a new task that will execute on the specified queue and
    /// returns its id.
    pub fn create_task_on_queue(&mut self, name: String, queue: u32, details: TaskDetails) -> (t:
        TaskId)
        requires
            old(self).spec_tasks().len() < u32::MAX,
        ensures
            final(self).spec_tasks() == old(self).spec_tasks().push(Task { name, queue, details }),
            final(self).spec_edges() == old(self).spec_edges(),
            t == old(self).spec_tasks().len(),
            old(self).wf() ==> final(self).wf(),
    {
        let t = pg_add_task(&mut self.g, Task { name, queue, details });
        proof {
            if old(self).wf() {
                assert forall|k: int| 0 <= k < self.spec_edges().len() implies (
                #[trigger] self.spec_edges()[k]).src < self.spec_tasks().len()
                    && self.spec_edges()[k].dst < self.spec_tasks().len() by {
                    assert(old(self).spec_edges()[k].src < old(self).spec_tasks().len());
                }
            }
        }
        t
    }

    /// Adds or updates a dependency between two tasks.
    ///
    /// If an edge `src -> dst` already exists whose barrier names the same
    /// resource (buffer to buffer, or image to image), the new dependency
    /// is merged into it — stage and access masks OR-ed, latency maxed —
    /// and the existing edge id is returned. Otherwise a new edge is
    /// appended. Sequence dependencies never merge.
    pub fn add_dependency(&mut self, src: TaskId, dst: TaskId, dependency: Dependency) -> (d:
        DependencyId)
        requires
            src < old(self).spec_tasks().len(),
            dst < old(self).spec_tasks().len(),
            old(self).spec_edges().len() < u32::MAX,
        ensures
            final(self).spec_tasks() == old(self).spec_tasks(),
            (final(self).spec_edges(), d as int) == spec_add_dependency(
                old(self).spec_edges(),
                src,
                dst,
                dependency,
            ),
            old(self).wf() ==> final(self).wf(),
    {
        let ghost es0 = self.spec_edges();
        proof {
            assert(es0.skip(0) =~= es0);
        }
        let n = pg_edge_count(&self.g);
        let mut i: usize = 0;
        while i < n
            invariant
                self.spec_edges() == es0,
                es0 == old(self).spec_edges(),
                self.spec_tasks() == old(self).spec_tasks(),
                src < self.spec_tasks().len(),
                dst < self.spec_tasks().len(),
                n == es0.len(),
                0 <= i <= n,
                spec_find_merge(es0, src, dst, dependency.barrier) == (match spec_find_merge(
                    es0.skip(i as int),
                    src,
                    dst,
                    dependency.barrier,
                ) {
                    None => None::<int>,
                    Some(j) => Some(j + i),
                }),
            decreases n - i,
        {
            proof {
                assert(es0.skip(i as int).first() == es0[i as int]);
                assert(es0.skip(i as int).drop_first() =~= es0.skip(i as int + 1));
            }
            let e = self.edge(i);
            if e.src == src && e.dst == dst && mergeable(&e.dependency.barrier, &dependency.barrier)
            {
                let merged = merge_dependency(&e.dependency, &dependency);
                let ghost updated = DependencyEdge { src, dst, dependency: merged };
                pg_set_edge_dependency(&mut self.g, i, merged);
                proof {
                    assert(self.spec_edges() =~= es0.update(i as int, updated));
                    assert(spec_find_merge(es0.skip(i as int), src, dst, dependency.barrier)
                        == Some(0int));
                    assert(spec_find_merge(es0, src, dst, dependency.barrier) == Some(i as int));
                    if old(self).wf() {
                        assert forall|k: int| 0 <= k < self.spec_edges().len() implies (
                        #[trigger] self.spec_edges()[k]).src < self.spec_tasks().len()
                            && self.spec_edges()[k].dst < self.spec_tasks().len() by {
                            assert(old(self).spec_edges()[k].src < old(self).spec_tasks().len());
                        }
                    }
                }
                return i;
            }
            i = i + 1;
        }
        proof {
            assert(es0.skip(n as int) =~= Seq::<DependencyEdge>::empty());
            assert(spec_find_merge(es0, src, dst, dependency.barrier) is None);
        }
        let d = pg_add_edge(&mut self.g, src, dst, dependency);
        proof {
            if old(self).wf() {
                assert forall|k: int| 0 <= k < self.spec_edges().len() implies (
                #[trigger] self.spec_edges()[k]).src < self.spec_tasks().len()
                    && self.spec_edges()[k].dst < self.spec_tasks().len() by {
                    if k < es0.len() {
                        assert(old(self).spec_edges()[k].src < old(self).spec_tasks().len());
                    }
                }
            }
        }
        d
    }

    /// Adds a pure sequencing constraint between two tasks: an edge that
    /// names no resource and never merges, so each call appends a new edge.
    pub fn add_sequence_dependency(&mut self, src: TaskId, dst: TaskId) -> (d: DependencyId)
        requires
            src < old(self).spec_tasks().len(),
            dst < old(self).spec_tasks().len(),
            old(self).spec_edges().len() < u32::MAX,
        ensures
            final(self).spec_tasks() == old(self).spec_tasks(),
            final(self).spec_edges() == old(self).spec_edges().push(
                DependencyEdge {
                    src,
                    dst,
                    dependency: Dependency {
                        src_stage_mask: PIPELINE_STAGE_TOP_OF_PIPE_BIT,
                        dst_stage_mask: PIPELINE_STAGE_BOTTOM_OF_PIPE_BIT,
                        barrier: BarrierDetail::Sequence,
                        latency: 0,
                    },
                },
            ),
            d == old(self).spec_edges().len(),
            old(self).wf() ==> final(self).wf(),
    {
        let dependency = Dependency {
            src_stage_mask: PIPELINE_STAGE_TOP_OF_PIPE_BIT,
            dst_stage_mask: PIPELINE_STAGE_BOTTOM_OF_PIPE_BIT,
            barrier: BarrierDetail::Sequence,
            latency: 0,
        };
        proof {
            lemma_sequence_never_merges(old(self).spec_edges(), src, dst);
        }
        self.add_dependency(src, dst, dependency)
    }

    /// Updates the destination access mask of an image dependency, OR-ing
    /// the given bits into it.
    pub fn add_image_barrier_access_flags(&mut self, dep: DependencyId, flags: u32)
        requires
            dep < old(self).spec_edges().len(),
            old(self).spec_edges()[dep as int].dependency.barrier is Image,
        ensures
            final(self).spec_tasks() == old(self).spec_tasks(),
            final(self).spec_edges() == old(self).spec_edges().update(
                dep as int,
                (DependencyEdge {
                    dependency: Dependency {
                        barrier: BarrierDetail::Image(
                            (crate::frame::dependency::ImageBarrier {
                                dst_access_mask: old(self).spec_edges()[dep as int].dependency.barrier->Image_0.dst_access_mask
                                    | flags,
                                ..old(self).spec_edges()[dep as int].dependency.barrier->Image_0
                            }),
                        ),
                        ..old(self).spec_edges()[dep as int].dependency
                    },
                    ..old(self).spec_edges()[dep as int]
                }),
            ),
            old(self).wf() ==> final(self).wf(),
    {
        let ghost es0 = self.spec_edges();
        let e = self.edge(dep);
        match e.dependency.barrier {
            BarrierDetail::Image(b) => {
                let updated = Dependency {
                    src_stage_mask: e.dependency.src_stage_mask,
                    dst_stage_mask: e.dependency.dst_stage_mask,
                    barrier: BarrierDetail::Image(
                        crate::frame::dependency::ImageBarrier {
                            id: b.id,
                            src_access_mask: b.src_access_mask,
                            dst_access_mask: b.dst_access_mask | flags,
                        },
                    ),
                    latency: e.dependency.latency,
                };
                pg_set_edge_dependency(&mut self.g, dep, updated);
                proof {
                    assert(self.spec_edges() =~= es0.update(
                        dep as int,
                        (DependencyEdge { src: e.src, dst: e.dst, dependency: updated }),
                    ));
                    if old(self).wf() {
                        assert forall|k: int| 0 <= k < self.spec_edges().len() implies (
                        #[trigger] self.spec_edges()[k]).src < self.spec_tasks().len()
                            && self.spec_edges()[k].dst < self.spec_tasks().len() by {
                            assert(old(self).spec_edges()[k].src < old(self).spec_tasks().len());
                        }
                    }
                }
            },
            _ => {
                proof {
                    assert(false);
                }
            },
        }
    }

    /// Collects every task that uses the image on an incoming edge but
    /// passes it on no outgoing edge: the terminal consumers whose
    /// completion ends the image's lifetime. Ids come back in increasing
    /// order, each at most once.
    pub fn collect_last_uses_of_image(&self, img: ImageId) -> (r: Vec<TaskId>)
        ensures
            forall|t: TaskId|
                t < self.spec_tasks().len() ==> (#[trigger] r@.contains(t)
                    <==> spec_is_last_use_of_image(self.spec_edges(), img, t as int)),
            forall|j: int| 0 <= j < r@.len() ==> #[trigger] r@[j] < self.spec_tasks().len(),
            forall|i: int, j: int| 0 <= i < j < r@.len() ==> #[trigger] r@[i] < #[trigger] r@[j],
    {
        let mut r: Vec<TaskId> = Vec::new();
        let n = self.task_count();
        let mut t: usize = 0;
        while t < n
            invariant
                0 <= t <= n,
                n == self.spec_tasks().len(),
                forall|u: TaskId|
                    u < t ==> (#[trigger] r@.contains(u) <==> spec_is_last_use_of_image(
                        self.spec_edges(),
                        img,
                        u as int,
                    )),
                forall|j: int| 0 <= j < r@.len() ==> #[trigger] r@[j] < t,
                forall|i: int, j: int| 0 <= i < j < r@.len() ==> #[trigger] r@[i] < #[trigger] r@[j],
            decreases n - t,
        {
            let incoming = self.scan_incoming_image(img, t);
            let outgoing = self.scan_outgoing_image(img, t);
            let ghost r0 = r@;
            if incoming && !outgoing {
                r.push(t);
            }
            proof {
                assert forall|u: TaskId|
                    u < t + 1 implies ((#[trigger] r@.contains(u))
                        <==> spec_is_last_use_of_image(self.spec_edges(), img, u as int)) by {
                    if incoming && !outgoing {
                        if u == t {
                            assert(r@[r0.len() as int] == t);
                            assert(r@.contains(u));
                        } else {
                            if r@.contains(u) {
                                let w = choose|w: int| 0 <= w < r@.len() && r@[w] == u;
                                assert(r0[w] == u);
                                assert(r0.contains(u));
                            }
                            if r0.contains(u) {
                                let w = choose|w: int| 0 <= w < r0.len() && r0[w] == u;
                                assert(r@[w] == u);
                            }
                        }
                    }
                }
            }
            t = t + 1;
        }
        r
    }

    /// Collects every task that uses the buffer on an incoming edge but
    /// passes it on no outgoing edge; see `collect_last_uses_of_image`.
    pub fn collect_last_uses_of_buffer(&self, buf: BufferId) -> (r: Vec<TaskId>)
        ensures
            forall|t: TaskId|
                t < self.spec_tasks().len() ==> (#[trigger] r@.contains(t)
                    <==> spec_is_last_use_of_buffer(self.spec_edges(), buf, t as int)),
            forall|j: int| 0 <= j < r@.len() ==> #[trigger] r@[j] < self.spec_tasks().len(),
            forall|i: int, j: int| 0 <= i < j < r@.len() ==> #[trigger] r@[i] < #[trigger] r@[j],
    {
        let mut r: Vec<TaskId> = Vec::new();
        let n = self.task_count();
        let mut t: usize = 0;
        while t < n
            invariant
                0 <= t <= n,
                n == self.spec_tasks().len(),
                forall|u: TaskId|
                    u < t ==> (#[trigger] r@.contains(u) <==> spec_is_last_use_of_buffer(
                        self.spec_edges(),
                        buf,
                        u as int,
                    )),
                forall|j: int| 0 <= j < r@.len() ==> #[trigger] r@[j] < t,
                forall|i: int, j: int| 0 <= i < j < r@.len() ==> #[trigger] r@[i] < #[trigger] r@[j],
            decreases n - t,
        {
            let incoming = self.scan_incoming_buffer(buf, t);
            let outgoing = self.scan_outgoing_buffer(buf, t);
            let ghost r0 = r@;
            if incoming && !outgoing {
                r.push(t);
            }
            proof {
                assert forall|u: TaskId|
                    u < t + 1 implies ((#[trigger] r@.contains(u))
                        <==> spec_is_last_use_of_buffer(self.spec_edges(), buf, u as int)) by {
                    if incoming && !outgoing {
                        if u == t {
                            assert(r@[r0.len() as int] == t);
                            assert(r@.contains(u));
                        } else {
                            if r@.contains(u) {
                                let w = choose|w: int| 0 <= w < r@.len() && r@[w] == u;
                                assert(r0[w] == u);
                                assert(r0.contains(u));
                            }
                            if r0.contains(u) {
                                let w = choose|w: int| 0 <= w < r0.len() && r0[w] == u;
                                assert(r@[w] == u);
                            }
                        }
                    }
                }
            }
            t = t + 1;
        }
        r
    }

    fn scan_incoming_image(&self, img: ImageId, t: TaskId) -> (r: bool)
        ensures
            r == spec_has_incoming_image(self.spec_edges(), img, t as int),
    {
        let mut k: usize = 0;
        let m = pg_edge_count(&self.g);
        while k < m
            invariant
                0 <= k <= m,
                m == self.spec_edges().len(),
                forall|j: int|
                    0 <= j < k ==> !(#[trigger] self.spec_edges()[j].dst == t as int
                        && self.spec_edges()[j].dependency.barrier.spec_image_id() == Some(img)),
            decreases m - k,
        {
            let e = self.edge(k);
            if e.dst == t {
                match e.dependency.barrier.image_id() {
                    Some(id) => {
                        if id.0 == img.0 {
                            return true;
                        }
                    },
                    None => {},
                }
            }
            k = k + 1;
        }
        false
    }

    fn scan_outgoing_image(&self, img: ImageId, t: TaskId) -> (r: bool)
        ensures
            r == spec_has_outgoing_image(self.spec_edges(), img, t as int),
    {
        let mut k: usize = 0;
        let m = pg_edge_count(&self.g);
        while k < m
            invariant
                0 <= k <= m,
                m == self.spec_edges().len(),
                forall|j: int|
                    0 <= j < k ==> !(#[trigger] self.spec_edges()[j].src == t as int
                        && self.spec_edges()[j].dependency.barrier.spec_image_id() == Some(img)),
            decreases m - k,
        {
            let e = self.edge(k);
            if e.src == t {
                match e.dependency.barrier.image_id() {
                    Some(id) => {
                        if id.0 == img.0 {
                            return true;
                        }
                    },
                    None => {},
                }
            }
            k = k + 1;
        }
        false
    }

    fn scan_incoming_buffer(&self, buf: BufferId, t: TaskId) -> (r: bool)
        ensures
            r == spec_has_incoming_buffer(self.spec_edges(), buf, t as int),
    {
        let mut k: usize = 0;
        let m = pg_edge_count(&self.g);
        while k < m
            invariant
                0 <= k <= m,
                m == self.spec_edges().len(),
                forall|j: int|
                    0 <= j < k ==> !(#[trigger] self.spec_edges()[j].dst == t as int
                        && self.spec_edges()[j].dependency.barrier.spec_buffer_id() == Some(buf)),
            decreases m - k,
        {
            let e = self.edge(k);
            if e.dst == t {
                match e.dependency.barrier.buffer_id() {
                    Some(id) => {
                        if id.0 == buf.0 {
                            return true;
                        }
                    },
                    None => {},
                }
            }
            k = k + 1;
        }
        false
    }

    fn scan_outgoing_buffer(&self, buf: BufferId, t: TaskId) -> (r: bool)
        ensures
            r == spec_has_outgoing_buffer(self.spec_edges(), buf, t as int),
    {
        let mut k: usize = 0;
        let m = pg_edge_count(&self.g);
        while k < m
            invariant
                0 <= k <= m,
                m == self.spec_edges().len(),
                forall|j: int|
                    0 <= j < k ==> !(#[trigger] self.spec_edges()[j].src == t as int
                        && self.spec_edges()[j].dependency.barrier.spec_buffer_id() == Some(buf)),
            decreases m - k,
        {
            let e = self.edge(k);
            if e.src == t {
                match e.dependency.barrier.buffer_id() {
                    Some(id) => {
                        if id.0 == buf.0 {
                            return true;
                        }
                    },
                    None => {},
                }
            }
            k = k + 1;
        }
        false
    }
}

/// A sequence dependency matches no existing edge: `spec_find_merge` with a
/// `Sequence` barrier always comes back empty.
pub proof fn lemma_sequence_never_merges(es: Seq<DependencyEdge>, src: TaskId, dst: TaskId)
    ensures
        spec_find_merge(es, src, dst, BarrierDetail::Sequence) is None,
    decreases es.len(),
{
    if es.len() > 0 {
        lemma_sequence_never_merges(es.drop_first(), src, dst);
    }
}

/// Edge `e` is a merge candidate for a dependency on barrier `b` between
/// `src` and `dst`.
pub open spec fn spec_edge_matches(
    e: DependencyEdge,
    src: TaskId,
    dst: TaskId,
    b: BarrierDetail,
) -> bool {
    e.src == src && e.dst == dst && spec_mergeable(e.dependency.barrier, b)
}

/// What `spec_find_merge` finds: the first matching edge, or nothing when
/// no edge matches.
pub proof fn lemma_find_merge_spec(es: Seq<DependencyEdge>, src: TaskId, dst: TaskId, b: BarrierDetail)
    ensures
        match spec_find_merge(es, src, dst, b) {
            Some(i) => 0 <= i < es.len() && spec_edge_matches(es[i], src, dst, b) && forall|j: int|
                0 <= j < i ==> !spec_edge_matches(#[trigger] es[j], src, dst, b),
            None => forall|j: int|
                0 <= j < es.len() ==> !spec_edge_matches(#[trigger] es[j], src, dst, b),
        },
    decreases es.len(),
{
    if es.len() > 0 {
        lemma_find_merge_spec(es.drop_first(), src, dst, b);
        assert forall|j: int| 1 <= j < es.len() implies es.drop_first()[j - 1] == es[j] by {}
    }
}

/// `spec_find_merge` finds a match at `i` when `es[i]` matches and nothing
/// before it does.
pub proof fn lemma_find_merge_at(
    es: Seq<DependencyEdge>,
    src: TaskId,
    dst: TaskId,
    b: BarrierDetail,
    i: int,
)
    requires
        0 <= i < es.len(),
        spec_edge_matches(es[i], src, dst, b),
        forall|j: int| 0 <= j < i ==> !spec_edge_matches(#[trigger] es[j], src, dst, b),
    ensures
        spec_find_merge(es, src, dst, b) == Some(i),
    decreases es.len(),
{
    if i > 0 {
        assert forall|j: int| 0 <= j < i - 1 implies !spec_edge_matches(
            #[trigger] es.drop_first()[j],
            src,
            dst,
            b,
        ) by {
            assert(es.drop_first()[j] == es[j + 1]);
        }
        assert(es.drop_first()[i - 1] == es[i]);
        lemma_find_merge_at(es.drop_first(), src, dst, b, i - 1);
    }
}

/// Merging keeps the barrier's kind and resource, so a merged edge still
/// matches everything the original matched.
pub proof fn lemma_merge_keeps_resource(a: Dependency, b: Dependency, c: BarrierDetail)
    requires
        spec_mergeable(a.barrier, b.barrier),
    ensures
        spec_mergeable(spec_merge(a, b).barrier, c) == spec_mergeable(a.barrier, c),
{
}

/// OR-ing the same mask in twice is the same as OR-ing it once.
proof fn lemma_or_idempotent(a: u32, b: u32)
    ensures
        (a | b) | b == a | b,
{
    assert((a | b) | b == a | b) by (bit_vector);
}

/// OR-ing a mask with itself changes nothing.
proof fn lemma_or_self(a: u32)
    ensures
        a | a == a,
{
    assert(a | a == a) by (bit_vector);
}

/// Merging a dependency with itself changes nothing.
pub proof fn lemma_merge_self(d: Dependency)
    requires
        spec_mergeable(d.barrier, d.barrier),
    ensures
        spec_merge(d, d) == d,
{
    lemma_or_self(d.src_stage_mask);
    lemma_or_self(d.dst_stage_mask);
    match d.barrier {
        BarrierDetail::Buffer(x) => {
            lemma_or_self(x.src_access_mask);
            lemma_or_self(x.dst_access_mask);
        },
        BarrierDetail::Image(x) => {
            lemma_or_self(x.src_access_mask);
            lemma_or_self(x.dst_access_mask);
        },
        _ => {},
    }
}

/// Merging the same dependency in twice is the same as merging it once.
pub proof fn lemma_merge_idempotent_once(a: Dependency, d: Dependency)
    requires
        spec_mergeable(a.barrier, d.barrier),
    ensures
        spec_merge(spec_merge(a, d), d) == spec_merge(a, d),
{
    lemma_or_idempotent(a.src_stage_mask, d.src_stage_mask);
    lemma_or_idempotent(a.dst_stage_mask, d.dst_stage_mask);
    match (a.barrier, d.barrier) {
        (BarrierDetail::Buffer(x), BarrierDetail::Buffer(y)) => {
            lemma_or_idempotent(x.src_access_mask, y.src_access_mask);
            lemma_or_idempotent(x.dst_access_mask, y.dst_access_mask);
        },
        (BarrierDetail::Image(x), BarrierDetail::Image(y)) => {
            lemma_or_idempotent(x.src_access_mask, y.src_access_mask);
            lemma_or_idempotent(x.dst_access_mask, y.dst_access_mask);
        },
        _ => {},
    }
}

/// Accumulation law: a second dependency on the same resource between the
/// same task pair lands on the edge the first one produced — the masks are
/// merged there, the edge count stays, and every other edge is untouched.
pub proof fn lemma_merge_accumulates(
    es: Seq<DependencyEdge>,
    src: TaskId,
    dst: TaskId,
    d1: Dependency,
    d2: Dependency,
)
    requires
        spec_mergeable(d1.barrier, d2.barrier),
    ensures
        ({
            let (es1, i1) = spec_add_dependency(es, src, dst, d1);
            let (es2, i2) = spec_add_dependency(es1, src, dst, d2);
            &&& i2 == i1
            &&& es2.len() == es1.len()
            &&& es2[i1].src == src && es2[i1].dst == dst
            &&& es2[i1].dependency == spec_merge(es1[i1].dependency, d2)
            &&& forall|k: int| 0 <= k < es1.len() && k != i1 ==> #[trigger] es2[k] == es1[k]
        }),
{
    let (es1, i1) = spec_add_dependency(es, src, dst, d1);
    lemma_find_merge_spec(es, src, dst, d1.barrier);
    match spec_find_merge(es, src, dst, d1.barrier) {
        Some(i) => {
            lemma_merge_keeps_resource(es[i].dependency, d1, d2.barrier);
            assert(spec_edge_matches(es1[i], src, dst, d2.barrier));
            assert forall|j: int| 0 <= j < i implies !spec_edge_matches(
                #[trigger] es1[j],
                src,
                dst,
                d2.barrier,
            ) by {
                assert(es1[j] == es[j]);
                assert(!spec_edge_matches(es[j], src, dst, d1.barrier));
            }
            lemma_find_merge_at(es1, src, dst, d2.barrier, i);
        },
        None => {
            assert(es1 == es.push(DependencyEdge { src, dst, dependency: d1 }));
            assert(spec_edge_matches(es1[es.len() as int], src, dst, d2.barrier));
            assert forall|j: int| 0 <= j < es.len() implies !spec_edge_matches(
                #[trigger] es1[j],
                src,
                dst,
                d2.barrier,
            ) by {
                assert(es1[j] == es[j]);
                assert(!spec_edge_matches(es[j], src, dst, d1.barrier));
            }
            lemma_find_merge_at(es1, src, dst, d2.barrier, es.len() as int);
        },
    }
}

/// Merge idempotence law: adding the same resource dependency twice yields
/// exactly the edge table that adding it once yields — one merged edge, not
/// two — and returns the same edge id both times.
pub proof fn lemma_merge_idempotent(
    es: Seq<DependencyEdge>,
    src: TaskId,
    dst: TaskId,
    d: Dependency,
)
    requires
        spec_mergeable(d.barrier, d.barrier),
    ensures
        ({
            let (es1, i1) = spec_add_dependency(es, src, dst, d);
            let (es2, i2) = spec_add_dependency(es1, src, dst, d);
            es2 == es1 && i2 == i1
        }),
{
    let (es1, i1) = spec_add_dependency(es, src, dst, d);
    let (es2, i2) = spec_add_dependency(es1, src, dst, d);
    lemma_merge_accumulates(es, src, dst, d, d);
    lemma_find_merge_spec(es, src, dst, d.barrier);
    match spec_find_merge(es, src, dst, d.barrier) {
        Some(i) => {
            lemma_merge_idempotent_once(es[i].dependency, d);
        },
        None => {
            lemma_merge_self(d);
        },
    }
    assert(es2 =~= es1);
}

/// Sequence edges are never the target of a resource merge: adding any
/// dependency leaves every existing sequence edge exactly as it was.
pub proof fn lemma_add_preserves_sequence_edges(
    es: Seq<DependencyEdge>,
    src: TaskId,
    dst: TaskId,
    d: Dependency,
)
    ensures
        spec_add_dependency(es, src, dst, d).0.len() >= es.len(),
        forall|k: int|
            0 <= k < es.len() && (#[trigger] es[k]).dependency.barrier is Sequence
                ==> spec_add_dependency(es, src, dst, d).0[k] == es[k],
{
    lemma_find_merge_spec(es, src, dst, d.barrier);
}

/// Sequence-edge non-interference law: a resource dependency and a
/// sequence dependency between the same task pair stand as two distinct
/// edges; adding the sequence edge appends and touches nothing, and
/// merging into the resource edge leaves the sequence edge alone.
pub proof fn lemma_sequence_edge_non_interference(
    es: Seq<DependencyEdge>,
    src: TaskId,
    dst: TaskId,
    d: Dependency,
    dseq: Dependency,
)
    requires
        d.barrier is Image || d.barrier is Buffer,
        dseq.barrier is Sequence,
    ensures
        ({
            let (es1, i1) = spec_add_dependency(es, src, dst, d);
            let (es2, i2) = spec_add_dependency(es1, src, dst, dseq);
            &&& 0 <= i1 < es1.len()
            &&& i2 == es1.len()
            &&& i1 != i2
            &&& es2 == es1.push(DependencyEdge { src, dst, dependency: dseq })
            &&& es2[i1] == es1[i1]
        }),
{
    let (es1, i1) = spec_add_dependency(es, src, dst, d);
    lemma_find_merge_spec(es, src, dst, d.barrier);
    assert(dseq.barrier == BarrierDetail::Sequence);
    lemma_sequence_never_merges(es1, src, dst);
}

} // verus!
