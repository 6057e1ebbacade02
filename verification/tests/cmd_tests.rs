//! The command submission pipeline: stable sort by sort key.

use autograph::cmd::Command;
use autograph::cmd::CommandBuffer;
use autograph::cmd::CommandInner;
use autograph::cmd::CmdError;
use autograph::cmd::DrawParams;
use autograph::cmd::ImageHandle;
use autograph::cmd::PipelineHandle;
use autograph::cmd::PipelineStates;
use autograph::cmd::SwapchainHandle;
use autograph::cmd::sort_command_buffers;

fn clear(buf: &mut CommandBuffer, key: u64, image: u64) {
    buf.clear_image(key, ImageHandle(image), &[0, 0, 0, 0]);
}

fn image_of(c: &Command) -> u64 {
    match &c.cmd {
        CommandInner::ClearImageFloat { image, .. } => image.0,
        _ => panic!("expected a clear command"),
    }
}

#[test]
fn stable_sort_preserves_order_of_equal_keys() {
    // A = [key 5, key 5], B = [key 5]: the merged stream keeps the
    // concatenation order A0, A1, B0 among the equal keys.
    let mut a = CommandBuffer::new();
    clear(&mut a, 5, 100);
    clear(&mut a, 5, 101);
    let mut b = CommandBuffer::new();
    clear(&mut b, 5, 200);
    let merged = sort_command_buffers(vec![a, b]);
    let images: Vec<u64> = merged.iter().map(image_of).collect();
    assert_eq!(images, vec![100, 101, 200]);
}

#[test]
fn sort_orders_by_ascending_key() {
    let mut a = CommandBuffer::new();
    clear(&mut a, 9, 1);
    clear(&mut a, 3, 2);
    let mut b = CommandBuffer::new();
    clear(&mut b, 6, 3);
    clear(&mut b, 1, 4);
    let merged = sort_command_buffers(vec![a, b]);
    let keys: Vec<u64> = merged.iter().map(|c| c.sortkey).collect();
    assert_eq!(keys, vec![1, 3, 6, 9]);
    let images: Vec<u64> = merged.iter().map(image_of).collect();
    assert_eq!(images, vec![4, 2, 3, 1]);
}

#[test]
fn cross_buffer_interleave_by_key() {
    // A later buffer's command can slot in before an earlier buffer's
    // command when its key is smaller: insertion order is decoupled from
    // execution order.
    let mut main_pass = CommandBuffer::new();
    clear(&mut main_pass, 10, 1);
    clear(&mut main_pass, 30, 2);
    let mut post = CommandBuffer::new();
    clear(&mut post, 20, 3);
    let merged = sort_command_buffers(vec![main_pass, post]);
    let images: Vec<u64> = merged.iter().map(image_of).collect();
    assert_eq!(images, vec![1, 3, 2]);
}

#[test]
fn empty_buffers_sort_to_empty_stream() {
    let merged = sort_command_buffers(vec![CommandBuffer::new(), CommandBuffer::new()]);
    assert!(merged.is_empty());
}

#[test]
fn draw_records_header_states_and_lead_out() {
    let mut buf = CommandBuffer::new();
    let states = PipelineStates {
        descriptor_sets: vec![],
        vertex_buffers: vec![],
        index_buffer: None,
        framebuffer: None,
        viewports: vec![],
        scissors: vec![],
    };
    buf.draw(
        7,
        PipelineHandle(42),
        states,
        DrawParams { vertex_count: 3, instance_count: 1, first_vertex: 0, first_instance: 0 },
    );
    let cmds = buf.iter();
    assert_eq!(cmds.len(), 6);
    assert!(matches!(cmds[0].cmd, CommandInner::DrawHeader { pipeline: PipelineHandle(42) }));
    assert!(matches!(cmds[1].cmd, CommandInner::SetDescriptorSets { .. }));
    assert!(matches!(cmds[2].cmd, CommandInner::SetVertexBuffers { .. }));
    assert!(matches!(cmds[3].cmd, CommandInner::SetViewports { .. }));
    assert!(matches!(cmds[4].cmd, CommandInner::SetScissors { .. }));
    match cmds[5].cmd {
        CommandInner::Draw { vertex_count, .. } => assert_eq!(vertex_count, 3),
        _ => panic!("expected the draw lead-out"),
    }
    assert!(cmds.iter().all(|c| c.sortkey == 7));
}

#[test]
fn present_records_a_present_command() {
    let mut buf = CommandBuffer::new();
    buf.present(4, ImageHandle(8), SwapchainHandle(1));
    let cmds = buf.iter();
    assert_eq!(cmds.len(), 1);
    assert!(matches!(
        cmds[0].cmd,
        CommandInner::Present { image: ImageHandle(8), swapchain: SwapchainHandle(1) }
    ));
}

#[test]
fn unsupported_commands_are_refused_and_record_nothing() {
    let mut buf = CommandBuffer::new();
    assert_eq!(buf.pipeline_barrier(0), Err(CmdError::NotSupported));
    assert_eq!(
        buf.copy_buffer(0, autograph::cmd::BufferHandle(1), autograph::cmd::BufferHandle(2), 0, 4, 0, 4),
        Err(CmdError::NotSupported)
    );
    assert!(buf.iter().is_empty());
}
