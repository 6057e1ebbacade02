//! Frame-graph construction: dependency merging, sequence edges, and
//! last-use queries.

use autograph::frame::dependency::BarrierDetail;
use autograph::frame::dependency::BufferBarrier;
use autograph::frame::dependency::Dependency;
use autograph::frame::dependency::ImageBarrier;
use autograph::frame::dependency::ACCESS_COLOR_ATTACHMENT_WRITE_BIT;
use autograph::frame::dependency::ACCESS_SHADER_READ_BIT;
use autograph::frame::dependency::PIPELINE_STAGE_BOTTOM_OF_PIPE_BIT;
use autograph::frame::dependency::PIPELINE_STAGE_COLOR_ATTACHMENT_OUTPUT_BIT;
use autograph::frame::dependency::PIPELINE_STAGE_FRAGMENT_SHADER_BIT;
use autograph::frame::dependency::PIPELINE_STAGE_TOP_OF_PIPE_BIT;
use autograph::frame::graph::FrameGraph;
use autograph::frame::graph::TaskDetails;
use autograph::frame::resource::BufferId;
use autograph::frame::resource::ImageId;

fn image_dep(id: u32, src_access: u32, dst_access: u32, latency: u32) -> Dependency {
    Dependency {
        src_stage_mask: PIPELINE_STAGE_COLOR_ATTACHMENT_OUTPUT_BIT,
        dst_stage_mask: PIPELINE_STAGE_FRAGMENT_SHADER_BIT,
        barrier: BarrierDetail::Image(ImageBarrier {
            id: ImageId(id),
            src_access_mask: src_access,
            dst_access_mask: dst_access,
        }),
        latency,
    }
}

fn two_task_graph() -> FrameGraph {
    let mut g = FrameGraph::new();
    g.create_task_on_queue("producer".to_owned(), 0, TaskDetails::Other);
    g.create_task_on_queue("consumer".to_owned(), 0, TaskDetails::Other);
    g
}

#[test]
fn merge_same_resource_yields_one_edge() {
    let mut g = two_task_graph();
    let d0 = g.add_dependency(0, 1, image_dep(7, 0, ACCESS_SHADER_READ_BIT, 2));
    let d1 = g.add_dependency(0, 1, image_dep(7, 0, ACCESS_SHADER_READ_BIT, 2));
    assert_eq!(d0, d1);
    assert_eq!(g.edge_count(), 1);
    let e = g.edge(d0);
    match e.dependency.barrier {
        BarrierDetail::Image(b) => {
            assert_eq!(b.id, ImageId(7));
            assert_eq!(b.dst_access_mask, ACCESS_SHADER_READ_BIT);
        }
        _ => panic!("expected an image barrier"),
    }
    assert_eq!(e.dependency.latency, 2);
}

#[test]
fn merge_ors_masks_and_maxes_latency() {
    let mut g = two_task_graph();
    let d0 = g.add_dependency(0, 1, image_dep(3, 0, ACCESS_SHADER_READ_BIT, 5));
    let d1 = g.add_dependency(0, 1, image_dep(3, ACCESS_COLOR_ATTACHMENT_WRITE_BIT, 0, 2));
    assert_eq!(d0, d1);
    assert_eq!(g.edge_count(), 1);
    let e = g.edge(d0);
    match e.dependency.barrier {
        BarrierDetail::Image(b) => {
            assert_eq!(b.src_access_mask, ACCESS_COLOR_ATTACHMENT_WRITE_BIT);
            assert_eq!(b.dst_access_mask, ACCESS_SHADER_READ_BIT);
        }
        _ => panic!("expected an image barrier"),
    }
    assert_eq!(e.dependency.latency, 5);
}

#[test]
fn different_resources_do_not_merge() {
    let mut g = two_task_graph();
    let d0 = g.add_dependency(0, 1, image_dep(1, 0, ACCESS_SHADER_READ_BIT, 0));
    let d1 = g.add_dependency(0, 1, image_dep(2, 0, ACCESS_SHADER_READ_BIT, 0));
    assert_ne!(d0, d1);
    assert_eq!(g.edge_count(), 2);
}

#[test]
fn buffer_and_image_barriers_do_not_merge() {
    let mut g = two_task_graph();
    g.add_dependency(0, 1, image_dep(1, 0, ACCESS_SHADER_READ_BIT, 0));
    let buffer_dep = Dependency {
        src_stage_mask: PIPELINE_STAGE_TOP_OF_PIPE_BIT,
        dst_stage_mask: PIPELINE_STAGE_FRAGMENT_SHADER_BIT,
        barrier: BarrierDetail::Buffer(BufferBarrier {
            id: BufferId(1),
            src_access_mask: 0,
            dst_access_mask: ACCESS_SHADER_READ_BIT,
        }),
        latency: 0,
    };
    g.add_dependency(0, 1, buffer_dep);
    assert_eq!(g.edge_count(), 2);
}

#[test]
fn sequence_edges_always_distinct() {
    let mut g = two_task_graph();
    let d0 = g.add_sequence_dependency(0, 1);
    let d1 = g.add_sequence_dependency(0, 1);
    assert_ne!(d0, d1);
    assert_eq!(g.edge_count(), 2);
    let e = g.edge(d0);
    assert_eq!(e.dependency.src_stage_mask, PIPELINE_STAGE_TOP_OF_PIPE_BIT);
    assert_eq!(e.dependency.dst_stage_mask, PIPELINE_STAGE_BOTTOM_OF_PIPE_BIT);
    assert!(matches!(e.dependency.barrier, BarrierDetail::Sequence));
}

#[test]
fn sequence_edge_does_not_interfere_with_resource_edge() {
    let mut g = two_task_graph();
    let dres = g.add_dependency(0, 1, image_dep(4, 0, ACCESS_SHADER_READ_BIT, 1));
    let dseq = g.add_sequence_dependency(0, 1);
    assert_ne!(dres, dseq);
    assert_eq!(g.edge_count(), 2);
    // Merging into the resource edge leaves the sequence edge alone.
    g.add_dependency(0, 1, image_dep(4, ACCESS_COLOR_ATTACHMENT_WRITE_BIT, 0, 9));
    assert_eq!(g.edge_count(), 2);
    assert!(matches!(g.edge(dseq).dependency.barrier, BarrierDetail::Sequence));
    match g.edge(dres).dependency.barrier {
        BarrierDetail::Image(b) => assert_eq!(b.src_access_mask, ACCESS_COLOR_ATTACHMENT_WRITE_BIT),
        _ => panic!("expected an image barrier"),
    }
    // And a further sequence edge does not merge with the resource edge.
    let dseq2 = g.add_sequence_dependency(0, 1);
    assert_eq!(g.edge_count(), 3);
    assert_ne!(dseq2, dres);
}

#[test]
fn add_image_barrier_access_flags_updates_dst_mask() {
    let mut g = two_task_graph();
    let d = g.add_dependency(0, 1, image_dep(5, 0, 0, 0));
    g.add_image_barrier_access_flags(d, ACCESS_SHADER_READ_BIT);
    match g.edge(d).dependency.barrier {
        BarrierDetail::Image(b) => assert_eq!(b.dst_access_mask, ACCESS_SHADER_READ_BIT),
        _ => panic!("expected an image barrier"),
    }
}

#[test]
fn last_uses_are_the_terminal_consumers() {
    // One producer writes image 9; two independent consumers read it and
    // nothing consumes it further: both readers are last uses.
    let mut g = FrameGraph::new();
    let t0 = g.create_task_on_queue("write".to_owned(), 0, TaskDetails::Other);
    let t1 = g.create_task_on_queue("read_a".to_owned(), 0, TaskDetails::Other);
    let t2 = g.create_task_on_queue("read_b".to_owned(), 0, TaskDetails::Other);
    g.add_dependency(t0, t1, image_dep(9, 0, ACCESS_SHADER_READ_BIT, 0));
    g.add_dependency(t0, t2, image_dep(9, 0, ACCESS_SHADER_READ_BIT, 0));
    let last = g.collect_last_uses_of_image(ImageId(9));
    assert_eq!(last, vec![t1, t2]);
    // The producer passes the image on, so it is not a last use; an
    // unrelated image has no last uses at all.
    assert!(g.collect_last_uses_of_image(ImageId(8)).is_empty());
}

#[test]
fn last_uses_of_buffer() {
    let mut g = FrameGraph::new();
    let t0 = g.create_task_on_queue("fill".to_owned(), 0, TaskDetails::Other);
    let t1 = g.create_task_on_queue("use".to_owned(), 0, TaskDetails::Other);
    let dep = Dependency {
        src_stage_mask: PIPELINE_STAGE_TOP_OF_PIPE_BIT,
        dst_stage_mask: PIPELINE_STAGE_FRAGMENT_SHADER_BIT,
        barrier: BarrierDetail::Buffer(BufferBarrier {
            id: BufferId(2),
            src_access_mask: 0,
            dst_access_mask: ACCESS_SHADER_READ_BIT,
        }),
        latency: 0,
    };
    g.add_dependency(t0, t1, dep);
    assert_eq!(g.collect_last_uses_of_buffer(BufferId(2)), vec![t1]);
    assert!(g.collect_last_uses_of_buffer(BufferId(3)).is_empty());
}
