//! The single-writer, many-reader gate on task output handles.

use autograph::frame::dependency::ACCESS_COLOR_ATTACHMENT_WRITE_BIT;
use autograph::frame::dependency::ACCESS_SHADER_READ_BIT;
use autograph::frame::dependency::PIPELINE_STAGE_COLOR_ATTACHMENT_OUTPUT_BIT;
use autograph::frame::dependency::PIPELINE_STAGE_FRAGMENT_SHADER_BIT;
use autograph::frame::resource::BufferId;
use autograph::frame::resource::ImageId;
use autograph::frame::Context;
use autograph::frame::FrameError;
use autograph::frame::TaskOutputRef;

#[test]
fn write_then_write_fails() {
    let mut r = TaskOutputRef::new(ImageId(0), 0, 0, 0);
    assert!(r.set_write().is_ok());
    assert!(r.set_write().is_err());
}

#[test]
fn read_then_write_fails() {
    let mut r = TaskOutputRef::new(ImageId(0), 0, 0, 0);
    assert!(r.set_read().is_ok());
    assert!(r.set_write().is_err());
}

#[test]
fn write_then_read_fails() {
    let mut r = TaskOutputRef::new(ImageId(0), 0, 0, 0);
    assert!(r.set_write().is_ok());
    assert!(r.set_read().is_err());
}

#[test]
fn repeated_reads_succeed() {
    let mut r = TaskOutputRef::new(ImageId(0), 0, 0, 0);
    assert!(r.set_read().is_ok());
    assert!(r.set_read().is_ok());
    assert!(r.set_read().is_ok());
}

#[test]
fn write_then_fresh_ref_then_read_succeeds() {
    // Writing through a handle retires it; the fresh handle the writing
    // task hands back accepts reads.
    let ctx = Context { present_queue: 0 };
    let mut frame = ctx.new_frame();
    let img = frame.create_image(
        "img".to_owned(),
        autograph::frame::resource::ImageCreateInfo {
            format: autograph::format::Format(0),
            dimensions: autograph::image::dimension::Dimensions::Dim2d { width: 4, height: 4 },
            mip_levels: 1,
            array_layers: 1,
            samples: 1,
            usage: 0,
        },
    );
    let t1 = frame.compute_task("t1".to_owned());
    let mut first = TaskOutputRef::new(img, t1, PIPELINE_STAGE_COLOR_ATTACHMENT_OUTPUT_BIT, 0);
    let t2 = frame.compute_task("t2".to_owned());
    let mut second = frame
        .task_write_image(
            t2,
            &mut first,
            PIPELINE_STAGE_FRAGMENT_SHADER_BIT,
            0,
            ACCESS_COLOR_ATTACHMENT_WRITE_BIT,
            PIPELINE_STAGE_COLOR_ATTACHMENT_OUTPUT_BIT,
            0,
        )
        .expect("first write through a fresh handle succeeds");
    assert_eq!(second.id, img);
    assert_eq!(second.task, t2);

    // The old handle is retired for reads and writes alike.
    let t3 = frame.compute_task("t3".to_owned());
    assert_eq!(
        frame.task_read_image(t3, &mut first, PIPELINE_STAGE_FRAGMENT_SHADER_BIT, 0, ACCESS_SHADER_READ_BIT),
        Err(FrameError::UsageConflict)
    );
    assert!(frame
        .task_write_image(
            t3,
            &mut first,
            PIPELINE_STAGE_FRAGMENT_SHADER_BIT,
            0,
            ACCESS_COLOR_ATTACHMENT_WRITE_BIT,
            PIPELINE_STAGE_COLOR_ATTACHMENT_OUTPUT_BIT,
            0,
        )
        .is_err());

    // The fresh handle reads fine.
    assert!(frame
        .task_read_image(t3, &mut second, PIPELINE_STAGE_FRAGMENT_SHADER_BIT, 0, ACCESS_SHADER_READ_BIT)
        .is_ok());
}

#[test]
fn failed_write_leaves_frame_unchanged() {
    let ctx = Context { present_queue: 0 };
    let mut frame = ctx.new_frame();
    let t1 = frame.compute_task("t1".to_owned());
    let t2 = frame.compute_task("t2".to_owned());
    let mut r = TaskOutputRef::new(ImageId(0), t1, 0, 0);
    r.set_write().unwrap();
    let edges_before = frame.graph.edge_count();
    assert!(frame
        .task_write_image(t2, &mut r, 0, 0, 0, 0, 0)
        .is_err());
    assert_eq!(frame.graph.edge_count(), edges_before);
}

#[test]
fn present_through_written_handle_fails() {
    let ctx = Context { present_queue: 0 };
    let mut frame = ctx.new_frame();
    let mut img = frame.import_image("target".to_owned());
    img.set_write().unwrap();
    assert_eq!(frame.present(&mut img), Err(FrameError::UsageConflict));
}

#[test]
fn buffer_reads_and_writes_follow_the_same_gate() {
    let ctx = Context { present_queue: 0 };
    let mut frame = ctx.new_frame();
    let t1 = frame.compute_task("fill".to_owned());
    let t2 = frame.compute_task("use".to_owned());
    let mut buf = TaskOutputRef::new(BufferId(0), t1, 0, 0);
    assert!(frame.task_read_buffer(t2, &mut buf, 0, 0, 0).is_ok());
    // Repeated reads merge into the same edge.
    assert!(frame.task_read_buffer(t2, &mut buf, 0, 0, 0).is_ok());
    assert_eq!(frame.graph.edge_count(), 1);
    // A write after a read is refused.
    match frame.task_write_buffer(t2, &mut buf, 0, 0, 0, 0, 0) {
        Err(e) => assert_eq!(e, FrameError::UsageConflict),
        Ok(_) => panic!("a write after a read must be refused"),
    }
}
