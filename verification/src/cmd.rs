//! Command buffers and the sort-key submission pipeline.
//!
//! Commands are collected into independently filled command buffers, each
//! command tagged with a 64-bit sort key. At submission all buffers are
//! concatenated and stable-sorted by ascending sort key: commands with equal
//! keys keep their concatenation order, which decouples the order in which
//! application code records work from the order in which it executes.

use vstd::prelude::*;

use crate::pipeline::IndexFormat;
use crate::pipeline::ScissorRect;
use crate::pipeline::Viewport;

verus! {

/// Handle to a device image, as recorded in a command stream.
#[derive(Copy, Clone, Debug, PartialEq, Eq, Structural, Hash)]
pub struct ImageHandle(pub u64);

/// Handle to a device buffer, as recorded in a command stream.
#[derive(Copy, Clone, Debug, PartialEq, Eq, Structural, Hash)]
pub struct BufferHandle(pub u64);

/// Handle to a swapchain, as recorded in a command stream.
#[derive(Copy, Clone, Debug, PartialEq, Eq, Structural, Hash)]
pub struct SwapchainHandle(pub u64);

/// Handle to a graphics pipeline, as recorded in a command stream.
#[derive(Copy, Clone, Debug, PartialEq, Eq, Structural, Hash)]
pub struct PipelineHandle(pub u64);

/// Handle to a descriptor set, as recorded in a command stream.
#[derive(Copy, Clone, Debug, PartialEq, Eq, Structural, Hash)]
pub struct DescriptorSetHandle(pub u64);

/// Handle to a framebuffer, as recorded in a command stream.
#[derive(Copy, Clone, Debug, PartialEq, Eq, Structural, Hash)]
pub struct FramebufferHandle(pub u64);

/// Errors of command recording.
#[derive(Copy, Clone, Debug, PartialEq, Eq, Structural)]
pub enum CmdError {
    /// The requested command is a configuration this frontend does not
    /// support yet; distinguished from caller mistakes on purpose.
    NotSupported,
}

/// Parameters for non-indexed draw commands.
#[derive(Copy, Clone, Debug, PartialEq, Eq, Structural)]
pub struct DrawParams {
    pub vertex_count: u32,
    pub instance_count: u32,
    pub first_vertex: u32,
    pub first_instance: u32,
}

/// Parameters for indexed draw commands.
#[derive(Copy, Clone, Debug, PartialEq, Eq, Structural)]
pub struct DrawIndexedParams {
    pub index_count: u32,
    pub instance_count: u32,
    pub first_index: u32,
    pub vertex_offset: i32,
    pub first_instance: u32,
}

/// The states a draw binds before it runs: what the recorded state-change
/// commands are generated from.
#[derive(Clone, Debug)]
pub struct PipelineStates {
    pub descriptor_sets: Vec<DescriptorSetHandle>,
    pub vertex_buffers: Vec<BufferHandle>,
    pub index_buffer: Option<(BufferHandle, usize, IndexFormat)>,
    pub framebuffer: Option<FramebufferHandle>,
    pub viewports: Vec<Viewport>,
    pub scissors: Vec<ScissorRect>,
}

/// One recorded command, without its sort key. Clear colors and depths are
/// carried as the raw bit patterns of the caller's floating-point values:
/// the frontend stores and forwards them, it never computes with them.
#[derive(Clone, Debug)]
pub enum CommandInner {
    // Main (lead-in) commands.
    ClearImageFloat { image: ImageHandle, color_bits: [u32; 4] },
    ClearDepthStencilImage { image: ImageHandle, depth_bits: u32, stencil: Option<u8> },
    Present { image: ImageHandle, swapchain: SwapchainHandle },
    DrawHeader { pipeline: PipelineHandle },
    // State change commands.
    SetDescriptorSets { descriptor_sets: Vec<DescriptorSetHandle> },
    SetFramebuffer { framebuffer: FramebufferHandle },
    SetVertexBuffers { vertex_buffers: Vec<BufferHandle> },
    SetIndexBuffer { index_buffer: BufferHandle, offset: usize, ty: IndexFormat },
    SetScissors { scissors: Vec<ScissorRect> },
    SetViewports { viewports: Vec<Viewport> },
    // Draw (lead-out) commands.
    Draw {
        vertex_count: u32,
        instance_count: u32,
        first_vertex: u32,
        first_instance: u32,
    },
    DrawIndexed {
        index_count: u32,
        instance_count: u32,
        first_index: u32,
        vertex_offset: i32,
        first_instance: u32,
    },
}

/// A command tagged with its sort key.
#[derive(Clone, Debug)]
pub struct Command {
    pub sortkey: u64,
    pub cmd: CommandInner,
}

/// Inserts a command into a sequence sorted by key, after every command
/// whose key is less than or equal: the insertion step of a stable
/// insertion sort.
pub open spec fn spec_insert_sorted(s: Seq<Command>, c: Command) -> Seq<Command>
    decreases s.len(),
{
    if s.len() == 0 {
        seq![c]
    } else if s.last().sortkey <= c.sortkey {
        s.push(c)
    } else {
        spec_insert_sorted(s.drop_last(), c).push(s.last())
    }
}

/// Stable sort by ascending sort key, defined as repeated stable insertion.
pub open spec fn spec_sort_commands(s: Seq<Command>) -> Seq<Command>
    decreases s.len(),
{
    if s.len() == 0 {
        Seq::empty()
    } else {
        spec_insert_sorted(spec_sort_commands(s.drop_last()), s.last())
    }
}

/// The concatenation of the commands of a list of command buffers.
pub open spec fn spec_concat_buffers(bufs: Seq<CommandBuffer>) -> Seq<Command>
    decreases bufs.len(),
{
    if bufs.len() == 0 {
        Seq::empty()
    } else {
        bufs.first().spec_commands() + spec_concat_buffers(bufs.drop_first())
    }
}

/// Sort keys are in ascending order.
pub open spec fn spec_sorted_by_key(s: Seq<Command>) -> bool {
    forall|i: int, j: int| 0 <= i <= j < s.len() ==> #[trigger] s[i].sortkey <= #[trigger] s[j].sortkey
}

/// Command buffers contain a list of commands. Buffers are independent
/// until submission, so different buffers can be filled from different
/// threads; one buffer is filled from one thread.
#[derive(Debug)]
pub struct CommandBuffer {
    commands: Vec<Command>,
}

impl CommandBuffer {
    /// The recorded commands, in recording order.
    pub closed spec fn spec_commands(&self) -> Seq<Command> {
        self.commands@
    }

    /// Creates an empty command buffer.
    pub fn new() -> (r: CommandBuffer)
        ensures
            r.spec_commands().len() == 0,
    {
        CommandBuffer { commands: Vec::new() }
    }

    fn push_command(&mut self, sortkey: u64, cmd: CommandInner)
        ensures
            final(self).spec_commands() == old(self).spec_commands().push(Command { sortkey, cmd }),
    {
        self.commands.push(Command { cmd, sortkey });
    }

    /// The recorded commands, in recording order.
    pub fn iter(&self) -> (r: &Vec<Command>)
        ensures
            r@ == self.spec_commands(),
    {
        &self.commands
    }

    /// Explicit pipeline barriers are not supported yet: the scheduler
    /// derives barriers itself. Nothing is recorded.
    pub fn pipeline_barrier(&mut self, _sort_key: u64) -> (r: Result<(), CmdError>)
        ensures
            r == Result::<(), CmdError>::Err(CmdError::NotSupported),
            final(self).spec_commands() == old(self).spec_commands(),
    {
        Err(CmdError::NotSupported)
    }

    /// Copies between buffers are not supported yet. Nothing is recorded.
    pub fn copy_buffer(
        &mut self,
        _sort_key: u64,
        _src: BufferHandle,
        _dst: BufferHandle,
        _src_offset: u64,
        _src_len: u64,
        _dst_offset: u64,
        _dst_len: u64,
    ) -> (r: Result<(), CmdError>)
        ensures
            r == Result::<(), CmdError>::Err(CmdError::NotSupported),
            final(self).spec_commands() == old(self).spec_commands(),
    {
        Err(CmdError::NotSupported)
    }

    /// Records a color clear of an image.
    pub fn clear_image(&mut self, sortkey: u64, image: ImageHandle, color_bits: &[u32; 4])
        ensures
            final(self).spec_commands() == old(self).spec_commands().push(
                Command {
                    sortkey,
                    cmd: CommandInner::ClearImageFloat { image, color_bits: *color_bits },
                },
            ),
    {
        self.push_command(sortkey, CommandInner::ClearImageFloat { image, color_bits: *color_bits })
    }

    /// Records a depth/stencil clear of an image.
    pub fn clear_depth_stencil_image(
        &mut self,
        sortkey: u64,
        image: ImageHandle,
        depth_bits: u32,
        stencil: Option<u8>,
    )
        ensures
            final(self).spec_commands() == old(self).spec_commands().push(
                Command {
                    sortkey,
                    cmd: CommandInner::ClearDepthStencilImage { image, depth_bits, stencil },
                },
            ),
    {
        self.push_command(
            sortkey,
            CommandInner::ClearDepthStencilImage { image, depth_bits, stencil },
        )
    }

    fn set_descriptor_sets(&mut self, sortkey: u64, descriptor_sets: Vec<DescriptorSetHandle>)
        ensures
            final(self).spec_commands() == old(self).spec_commands().push(
                Command { sortkey, cmd: CommandInner::SetDescriptorSets { descriptor_sets } },
            ),
    {
        self.push_command(sortkey, CommandInner::SetDescriptorSets { descriptor_sets })
    }

    fn set_framebuffer(&mut self, sortkey: u64, framebuffer: FramebufferHandle)
        ensures
            final(self).spec_commands() == old(self).spec_commands().push(
                Command { sortkey, cmd: CommandInner::SetFramebuffer { framebuffer } },
            ),
    {
        self.push_command(sortkey, CommandInner::SetFramebuffer { framebuffer })
    }

    fn set_vertex_buffers(&mut self, sortkey: u64, vertex_buffers: Vec<BufferHandle>)
        ensures
            final(self).spec_commands() == old(self).spec_commands().push(
                Command { sortkey, cmd: CommandInner::SetVertexBuffers { vertex_buffers } },
            ),
    {
        self.push_command(sortkey, CommandInner::SetVertexBuffers { vertex_buffers })
    }

    fn set_index_buffer(
        &mut self,
        sortkey: u64,
        index_buffer: BufferHandle,
        offset: usize,
        ty: IndexFormat,
    )
        ensures
            final(self).spec_commands() == old(self).spec_commands().push(
                Command { sortkey, cmd: CommandInner::SetIndexBuffer { index_buffer, offset, ty } },
            ),
    {
        self.push_command(sortkey, CommandInner::SetIndexBuffer { index_buffer, offset, ty })
    }

    fn set_viewports(&mut self, sortkey: u64, viewports: Vec<Viewport>)
        ensures
            final(self).spec_commands() == old(self).spec_commands().push(
                Command { sortkey, cmd: CommandInner::SetViewports { viewports } },
            ),
    {
        self.push_command(sortkey, CommandInner::SetViewports { viewports })
    }

    fn set_scissors(&mut self, sortkey: u64, scissors: Vec<ScissorRect>)
        ensures
            final(self).spec_commands() == old(self).spec_commands().push(
                Command { sortkey, cmd: CommandInner::SetScissors { scissors } },
            ),
    {
        self.push_command(sortkey, CommandInner::SetScissors { scissors })
    }

    /// The commands a draw call records before its lead-out command: the
    /// draw header, then one state-change command per state group that the
    /// interface binds, all under one sort key.
    pub open spec fn spec_bind_commands(sortkey: u64, pipeline: PipelineHandle, states: PipelineStates) -> Seq<Command> {
        let header = seq![
            Command { sortkey, cmd: CommandInner::DrawHeader { pipeline } },
            Command {
                sortkey,
                cmd: CommandInner::SetDescriptorSets { descriptor_sets: states.descriptor_sets },
            },
            Command {
                sortkey,
                cmd: CommandInner::SetVertexBuffers { vertex_buffers: states.vertex_buffers },
            },
        ];
        let with_ib = if states.index_buffer is Some {
            header.push(
                Command {
                    sortkey,
                    cmd: CommandInner::SetIndexBuffer {
                        index_buffer: states.index_buffer->Some_0.0,
                        offset: states.index_buffer->Some_0.1,
                        ty: states.index_buffer->Some_0.2,
                    },
                },
            )
        } else {
            header
        };
        let with_fb = if states.framebuffer is Some {
            with_ib.push(
                Command {
                    sortkey,
                    cmd: CommandInner::SetFramebuffer { framebuffer: states.framebuffer->Some_0 },
                },
            )
        } else {
            with_ib
        };
        with_fb.push(
            Command { sortkey, cmd: CommandInner::SetViewports { viewports: states.viewports } },
        ).push(Command { sortkey, cmd: CommandInner::SetScissors { scissors: states.scissors } })
    }

    fn bind_pipeline_interface(
        &mut self,
        sortkey: u64,
        pipeline: PipelineHandle,
        states: PipelineStates,
    )
        ensures
            final(self).spec_commands() == old(self).spec_commands()
                + Self::spec_bind_commands(sortkey, pipeline, states),
    {
        let PipelineStates {
            descriptor_sets,
            vertex_buffers,
            index_buffer,
            framebuffer,
            viewports,
            scissors,
        } = states;
        self.push_command(sortkey, CommandInner::DrawHeader { pipeline });
        self.set_descriptor_sets(sortkey, descriptor_sets);
        self.set_vertex_buffers(sortkey, vertex_buffers);
        match index_buffer {
            Some((ib, offset, ty)) => {
                self.set_index_buffer(sortkey, ib, offset, ty);
            },
            None => {},
        }
        match framebuffer {
            Some(fb) => {
                self.set_framebuffer(sortkey, fb);
            },
            None => {},
        }
        self.set_viewports(sortkey, viewports);
        self.set_scissors(sortkey, scissors);
        proof {
            assert(self.spec_commands() =~= old(self).spec_commands()
                + Self::spec_bind_commands(sortkey, pipeline, states));
        }
    }

    /// Records a non-indexed draw: the pipeline binding commands followed
    /// by the draw lead-out command, all under one sort key.
    pub fn draw(
        &mut self,
        sortkey: u64,
        pipeline: PipelineHandle,
        states: PipelineStates,
        params: DrawParams,
    )
        ensures
            final(self).spec_commands() == old(self).spec_commands()
                + Self::spec_bind_commands(sortkey, pipeline, states).push(
                Command {
                    sortkey,
                    cmd: CommandInner::Draw {
                        vertex_count: params.vertex_count,
                        instance_count: params.instance_count,
                        first_vertex: params.first_vertex,
                        first_instance: params.first_instance,
                    },
                },
            ),
    {
        self.bind_pipeline_interface(sortkey, pipeline, states);
        self.push_command(
            sortkey,
            CommandInner::Draw {
                vertex_count: params.vertex_count,
                instance_count: params.instance_count,
                first_vertex: params.first_vertex,
                first_instance: params.first_instance,
            },
        );
        proof {
            assert(self.spec_commands() =~= old(self).spec_commands()
                + Self::spec_bind_commands(sortkey, pipeline, states).push(
                Command {
                    sortkey,
                    cmd: CommandInner::Draw {
                        vertex_count: params.vertex_count,
                        instance_count: params.instance_count,
                        first_vertex: params.first_vertex,
                        first_instance: params.first_instance,
                    },
                },
            ));
        }
    }

    /// Records an indexed draw: the pipeline binding commands followed by
    /// the indexed draw lead-out command, all under one sort key.
    pub fn draw_indexed(
        &mut self,
        sortkey: u64,
        pipeline: PipelineHandle,
        states: PipelineStates,
        params: DrawIndexedParams,
    )
        ensures
            final(self).spec_commands() == old(self).spec_commands()
                + Self::spec_bind_commands(sortkey, pipeline, states).push(
                Command {
                    sortkey,
                    cmd: CommandInner::DrawIndexed {
                        index_count: params.index_count,
                        instance_count: params.instance_count,
                        first_index: params.first_index,
                        vertex_offset: params.vertex_offset,
                        first_instance: params.first_instance,
                    },
                },
            ),
    {
        self.bind_pipeline_interface(sortkey, pipeline, states);
        self.push_command(
            sortkey,
            CommandInner::DrawIndexed {
                index_count: params.index_count,
                instance_count: params.instance_count,
                first_index: params.first_index,
                vertex_offset: params.vertex_offset,
                first_instance: params.first_instance,
            },
        );
        proof {
            assert(self.spec_commands() =~= old(self).spec_commands()
                + Self::spec_bind_commands(sortkey, pipeline, states).push(
                Command {
                    sortkey,
                    cmd: CommandInner::DrawIndexed {
                        index_count: params.index_count,
                        instance_count: params.instance_count,
                        first_index: params.first_index,
                        vertex_offset: params.vertex_offset,
                        first_instance: params.first_instance,
                    },
                },
            ));
        }
    }

    /// Records the presentation of an image to a swapchain.
    pub fn present(&mut self, sortkey: u64, image: ImageHandle, swapchain: SwapchainHandle)
        ensures
            final(self).spec_commands() == old(self).spec_commands().push(
                Command { sortkey, cmd: CommandInner::Present { image, swapchain } },
            ),
    {
        self.push_command(sortkey, CommandInner::Present { image, swapchain })
    }
}

/// Inserts `c` into the key-sorted vector `v`, after every command with an
/// equal or smaller key.
fn insert_sorted(v: &mut Vec<Command>, c: Command)
    ensures
        final(v)@ == spec_insert_sorted(old(v)@, c),
    decreases old(v)@.len(),
{
    if v.len() == 0 {
        v.push(c);
        proof {
            assert(v@ =~= spec_insert_sorted(old(v)@, c));
        }
        return ;
    }
    let last_key = v[v.len() - 1].sortkey;
    if last_key <= c.sortkey {
        v.push(c);
    } else {
        let t = v.pop().unwrap();
        insert_sorted(v, c);
        v.push(t);
    }
}

/// Concatenates the given command buffers in order and stable-sorts the
/// commands by ascending sort key: commands with equal keys keep the order
/// they have in the concatenation.
pub fn sort_command_buffers(cmdbufs: Vec<CommandBuffer>) -> (r: Vec<Command>)
    ensures
        r@ == spec_sort_commands(spec_concat_buffers(cmdbufs@)),
        spec_sorted_by_key(r@),
        r@.to_multiset() == spec_concat_buffers(cmdbufs@).to_multiset(),
{
    let mut fused: Vec<Command> = Vec::new();
    let mut bufs = cmdbufs;
    let ghost all = cmdbufs@;
    proof {
        assert(fused@ + spec_concat_buffers(bufs@) =~= spec_concat_buffers(all));
    }
    while bufs.len() > 0
        invariant
            fused@ + spec_concat_buffers(bufs@) == spec_concat_buffers(all),
        decreases bufs@.len(),
    {
        let ghost pb = bufs@;
        let mut b = bufs.remove(0);
        proof {
            assert(bufs@ =~= pb.drop_first());
            assert((fused@ + b.commands@) + spec_concat_buffers(bufs@) =~= fused@ + (b.commands@
                + spec_concat_buffers(bufs@)));
        }
        while b.commands.len() > 0
            invariant
                (fused@ + b.commands@) + spec_concat_buffers(bufs@) == spec_concat_buffers(all),
            decreases b.commands@.len(),
        {
            let ghost pf = fused@;
            let ghost pc = b.commands@;
            let c = b.commands.remove(0);
            fused.push(c);
            proof {
                assert(fused@ + b.commands@ =~= pf + pc);
            }
        }
        proof {
            assert(fused@ + b.commands@ =~= fused@);
        }
    }
    proof {
        assert(fused@ + spec_concat_buffers(bufs@) =~= fused@);
    }
    let mut sorted: Vec<Command> = Vec::new();
    let ghost fused_all = fused@;
    let ghost mut k: int = 0;
    while fused.len() > 0
        invariant
            0 <= k <= fused_all.len(),
            fused@ == fused_all.skip(k),
            sorted@ == spec_sort_commands(fused_all.take(k)),
        decreases fused@.len(),
    {
        let c = fused.remove(0);
        proof {
            assert(c == fused_all[k]);
            assert(fused_all.take(k + 1).drop_last() =~= fused_all.take(k));
            assert(fused_all.take(k + 1).last() == fused_all[k]);
            assert(fused_all.skip(k).drop_first() =~= fused_all.skip(k + 1));
        }
        insert_sorted(&mut sorted, c);
        proof {
            k = k + 1;
        }
    }
    proof {
        assert(fused_all.take(fused_all.len() as int) =~= fused_all);
        assert(fused@ =~= fused_all.skip(k));
        lemma_sort_commands_sorted(fused_all);
        lemma_sort_commands_multiset(fused_all);
    }
    sorted
}

/// The sorted sequence is sorted by key.
pub proof fn lemma_insert_sorted_sorted(s: Seq<Command>, c: Command)
    requires
        spec_sorted_by_key(s),
    ensures
        spec_sorted_by_key(spec_insert_sorted(s, c)),
    decreases s.len(),
{
    if s.len() == 0 {
    } else if s.last().sortkey <= c.sortkey {
    } else {
        assert(spec_sorted_by_key(s.drop_last()));
        lemma_insert_sorted_sorted(s.drop_last(), c);
        lemma_insert_sorted_multiset(s.drop_last(), c);
        let r = spec_insert_sorted(s.drop_last(), c).push(s.last());
        let inner = spec_insert_sorted(s.drop_last(), c);
        assert forall|i: int, j: int| 0 <= i <= j < r.len() implies r[i].sortkey
            <= r[j].sortkey by {
            if j < r.len() - 1 {
                assert(r[i] == inner[i] && r[j] == inner[j]);
            } else if i < r.len() - 1 {
                lemma_insert_member_bound(s.drop_last(), c, i);
            }
        }
    }
}

/// Every element of an insertion result has a key bounded by the larger of
/// the inserted key and the keys already present.
proof fn lemma_insert_member_bound(s: Seq<Command>, c: Command, i: int)
    requires
        spec_sorted_by_key(s),
        0 <= i < spec_insert_sorted(s, c).len(),
    ensures
        spec_insert_sorted(s, c)[i].sortkey <= c.sortkey || (s.len() > 0 && spec_insert_sorted(
            s,
            c,
        )[i].sortkey <= s.last().sortkey),
    decreases s.len(),
{
    if s.len() == 0 {
    } else if s.last().sortkey <= c.sortkey {
    } else {
        if i < spec_insert_sorted(s, c).len() - 1 {
            assert(spec_sorted_by_key(s.drop_last()));
            lemma_insert_member_bound(s.drop_last(), c, i);
        }
    }
}

/// Insertion preserves the multiset of commands.
pub proof fn lemma_insert_sorted_multiset(s: Seq<Command>, c: Command)
    ensures
        spec_insert_sorted(s, c).to_multiset() == s.to_multiset().insert(c),
    decreases s.len(),
{
    broadcast use vstd::seq_lib::group_to_multiset_ensures;

    if s.len() == 0 {
        assert(spec_insert_sorted(s, c) =~= seq![c]);
        assert(seq![c].drop_last() =~= Seq::<Command>::empty());
        assert(seq![c].to_multiset() =~= s.to_multiset().insert(c));
    } else if s.last().sortkey <= c.sortkey {
        assert(s.push(c).to_multiset() =~= s.to_multiset().insert(c));
    } else {
        lemma_insert_sorted_multiset(s.drop_last(), c);
        assert(s.drop_last().push(s.last()) =~= s);
        assert(spec_insert_sorted(s, c).to_multiset() =~= s.to_multiset().insert(c));
    }
}

/// The stable sort returns a sequence sorted by ascending key.
pub proof fn lemma_sort_commands_sorted(s: Seq<Command>)
    ensures
        spec_sorted_by_key(spec_sort_commands(s)),
    decreases s.len(),
{
    if s.len() > 0 {
        lemma_sort_commands_sorted(s.drop_last());
        lemma_insert_sorted_sorted(spec_sort_commands(s.drop_last()), s.last());
    }
}

/// The stable sort returns a permutation of its input.
pub proof fn lemma_sort_commands_multiset(s: Seq<Command>)
    ensures
        spec_sort_commands(s).to_multiset() == s.to_multiset(),
    decreases s.len(),
{
    broadcast use vstd::seq_lib::group_to_multiset_ensures;

    if s.len() > 0 {
        lemma_sort_commands_multiset(s.drop_last());
        lemma_insert_sorted_multiset(spec_sort_commands(s.drop_last()), s.last());
        assert(s.drop_last().push(s.last()) =~= s);
        assert(spec_sort_commands(s).to_multiset() =~= s.to_multiset());
    }
}

} // verus!
