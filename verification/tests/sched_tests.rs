//! Scheduling: topological validity, determinism, cycle detection, and the
//! end-to-end frame scenario.

use autograph::frame::dependency::ACCESS_COLOR_ATTACHMENT_WRITE_BIT;
use autograph::frame::dependency::ACCESS_SHADER_READ_BIT;
use autograph::frame::dependency::PIPELINE_STAGE_COLOR_ATTACHMENT_OUTPUT_BIT;
use autograph::frame::dependency::PIPELINE_STAGE_FRAGMENT_SHADER_BIT;
use autograph::frame::graph::FrameGraph;
use autograph::frame::graph::TaskDetails;
use autograph::frame::sched::ScheduleOptimizationProfile;
use autograph::frame::Context;
use autograph::frame::TaskOutputRef;
use autograph::frame::dependency::BarrierDetail;
use autograph::frame::dependency::Dependency;
use autograph::frame::dependency::ImageBarrier;
use autograph::frame::resource::ImageId;

fn image_dep(id: u32) -> Dependency {
    Dependency {
        src_stage_mask: PIPELINE_STAGE_COLOR_ATTACHMENT_OUTPUT_BIT,
        dst_stage_mask: PIPELINE_STAGE_FRAGMENT_SHADER_BIT,
        barrier: BarrierDetail::Image(ImageBarrier {
            id: ImageId(id),
            src_access_mask: ACCESS_COLOR_ATTACHMENT_WRITE_BIT,
            dst_access_mask: ACCESS_SHADER_READ_BIT,
        }),
        latency: 0,
    }
}

fn assert_topological(g: &FrameGraph, order: &[usize]) {
    assert_eq!(order.len(), g.task_count());
    let position = |t: usize| order.iter().position(|&x| x == t).expect("task missing");
    for d in 0..g.edge_count() {
        let e = g.edge(d);
        assert!(
            position(e.src) < position(e.dst),
            "edge {}->{} out of order in {:?}",
            e.src,
            e.dst,
            order
        );
    }
}

#[test]
fn schedule_respects_every_edge() {
    // A diamond plus an independent task.
    let mut g = FrameGraph::new();
    for name in ["a", "b", "c", "d", "lone"] {
        g.create_task_on_queue(name.to_owned(), 0, TaskDetails::Other);
    }
    g.add_sequence_dependency(0, 1);
    g.add_sequence_dependency(0, 2);
    g.add_sequence_dependency(1, 3);
    g.add_sequence_dependency(2, 3);
    let order = g
        .schedule(ScheduleOptimizationProfile::MaximizeAliasing)
        .expect("acyclic graph must schedule");
    assert_topological(&g, &order);
    // Deterministic smallest-id tie-break.
    assert_eq!(order, vec![0, 1, 2, 3, 4]);
}

#[test]
fn schedule_of_reverse_declaration_order() {
    // Edges pointing from a later-created task to an earlier-created one.
    let mut g = FrameGraph::new();
    for name in ["x", "y", "z"] {
        g.create_task_on_queue(name.to_owned(), 0, TaskDetails::Other);
    }
    g.add_sequence_dependency(2, 0);
    g.add_sequence_dependency(0, 1);
    let order = g
        .schedule(ScheduleOptimizationProfile::Standard)
        .expect("acyclic graph must schedule");
    assert_eq!(order, vec![2, 0, 1]);
}

#[test]
fn cyclic_graph_is_refused() {
    let mut g = FrameGraph::new();
    g.create_task_on_queue("a".to_owned(), 0, TaskDetails::Other);
    g.create_task_on_queue("b".to_owned(), 0, TaskDetails::Other);
    g.add_sequence_dependency(0, 1);
    g.add_sequence_dependency(1, 0);
    assert!(g.schedule(ScheduleOptimizationProfile::Standard).is_none());
}

#[test]
fn self_loop_is_refused() {
    let mut g = FrameGraph::new();
    g.create_task_on_queue("a".to_owned(), 0, TaskDetails::Other);
    g.add_sequence_dependency(0, 0);
    assert!(g.schedule(ScheduleOptimizationProfile::Standard).is_none());
}

#[test]
fn empty_graph_schedules_to_empty_order() {
    let g = FrameGraph::new();
    let order = g.schedule(ScheduleOptimizationProfile::Standard).unwrap();
    assert!(order.is_empty());
}

#[test]
fn end_to_end_frame_scenario() {
    // T1 writes image X, T2 reads X and writes Y, T3 reads X and Y:
    // schedule is [T1, T2, T3], and repeated overlapping read/write
    // declarations leave exactly one merged edge between T1 and T2 for X.
    let ctx = Context { present_queue: 0 };
    let mut frame = ctx.new_frame();
    let x = frame.create_image(
        "x".to_owned(),
        autograph::frame::resource::ImageCreateInfo {
            format: autograph::format::Format(1),
            dimensions: autograph::image::dimension::Dimensions::Dim2d { width: 64, height: 64 },
            mip_levels: 1,
            array_layers: 1,
            samples: 1,
            usage: 0,
        },
    );
    let y = frame.create_image(
        "y".to_owned(),
        autograph::frame::resource::ImageCreateInfo {
            format: autograph::format::Format(1),
            dimensions: autograph::image::dimension::Dimensions::Dim2d { width: 64, height: 64 },
            mip_levels: 1,
            array_layers: 1,
            samples: 1,
            usage: 0,
        },
    );
    let t1 = frame.compute_task("t1".to_owned());
    let mut x_ref = TaskOutputRef::new(x, t1, PIPELINE_STAGE_COLOR_ATTACHMENT_OUTPUT_BIT, 0);
    let t2 = frame.compute_task("t2".to_owned());
    // T2 reads X twice (overlapping sub-regions): the edge merges.
    frame
        .task_read_image(t2, &mut x_ref, PIPELINE_STAGE_FRAGMENT_SHADER_BIT, 0, ACCESS_SHADER_READ_BIT)
        .unwrap();
    frame
        .task_read_image(t2, &mut x_ref, PIPELINE_STAGE_FRAGMENT_SHADER_BIT, 0, ACCESS_SHADER_READ_BIT)
        .unwrap();
    let mut y_ref = TaskOutputRef::new(y, t2, PIPELINE_STAGE_COLOR_ATTACHMENT_OUTPUT_BIT, 0);
    let t3 = frame.compute_task("t3".to_owned());
    frame
        .task_read_image(t3, &mut x_ref, PIPELINE_STAGE_FRAGMENT_SHADER_BIT, 0, ACCESS_SHADER_READ_BIT)
        .unwrap();
    frame
        .task_read_image(t3, &mut y_ref, PIPELINE_STAGE_FRAGMENT_SHADER_BIT, 0, ACCESS_SHADER_READ_BIT)
        .unwrap();

    // Exactly one merged edge T1 -> T2 for X.
    let mut t1_to_t2 = 0;
    for d in 0..frame.graph.edge_count() {
        let e = frame.graph.edge(d);
        if e.src == t1 && e.dst == t2 {
            t1_to_t2 += 1;
        }
    }
    assert_eq!(t1_to_t2, 1);

    let order = frame.submit().expect("acyclic frame must schedule");
    assert_eq!(order, vec![t1, t2, t3]);
}

#[test]
fn present_appends_task_on_present_queue() {
    let ctx = Context { present_queue: 2 };
    let mut frame = ctx.new_frame();
    let mut img = frame.import_image("swapchain".to_owned());
    let t = frame.present(&mut img).unwrap();
    assert_eq!(frame.graph.task(t).queue, 2);
    assert_eq!(frame.graph.task(t).name, "present");
    assert!(matches!(frame.graph.task(t).details, TaskDetails::Present(_)));
    assert_eq!(frame.graph.edge_count(), 1);
    let e = frame.graph.edge(0);
    assert_eq!(e.src, img.task);
    assert_eq!(e.dst, t);
}

#[test]
fn make_sequence_task_fans_in() {
    let ctx = Context { present_queue: 0 };
    let mut frame = ctx.new_frame();
    let a = frame.compute_task("a".to_owned());
    let b = frame.compute_task("b".to_owned());
    let joined = frame.make_sequence_task("join".to_owned(), &vec![a, b]);
    assert_eq!(frame.graph.edge_count(), 2);
    assert_eq!(frame.graph.edge(0).src, a);
    assert_eq!(frame.graph.edge(0).dst, joined);
    assert_eq!(frame.graph.edge(1).src, b);
    assert_eq!(frame.graph.edge(1).dst, joined);
    let order = frame.submit().unwrap();
    assert_eq!(order, vec![a, b, joined]);
}

#[test]
fn unrelated_resource_edges_schedule_by_id() {
    let mut g = FrameGraph::new();
    for name in ["p", "q", "r"] {
        g.create_task_on_queue(name.to_owned(), 0, TaskDetails::Other);
    }
    g.add_dependency(1, 0, image_dep(1));
    let order = g.schedule(ScheduleOptimizationProfile::Standard).unwrap();
    assert_eq!(order, vec![1, 0, 2]);
}

#[test]
fn create_image_2d_registers_a_transient_image() {
    let ctx = Context { present_queue: 0 };
    let mut frame = ctx.new_frame();
    let id = frame.create_image_2d("color".to_owned(), (128, 64), autograph::format::Format(3));
    assert_eq!(frame.resources.image_count(), 1);
    assert!(frame.resources.is_image_transient(id));
}

#[test]
fn import_creates_an_import_task_on_the_default_queue() {
    let ctx = Context { present_queue: 1 };
    let mut frame = ctx.new_frame();
    let img = frame.import_image("backbuffer".to_owned());
    let producer = frame.graph.task(img.task);
    assert_eq!(producer.name, "import");
    assert_eq!(producer.queue, 0);
    assert!(matches!(producer.details, TaskDetails::Other));
    let join = frame.make_sequence_task("join".to_owned(), &vec![img.task]);
    assert_eq!(frame.graph.task(join).queue, 0);
    assert_eq!(frame.graph.task(join).name, "join");
}
