//! Frame-renderer behaviour: the redraw decision, the synchronization-token
//! chain, and graceful degradation on swapchain invalidation.

use render_core::frame::{
    AcquireOutcome, ClearColor, CommandPlan, FlushOutcome, FrameRenderer, FrameStep, GpuFuture,
    CLEAR_ALPHA_MILLI, CLEAR_BLUE_MILLI, CLEAR_GREEN_MILLI, CLEAR_RED_MILLI,
};

fn expected_commands(image_index: usize) -> CommandPlan {
    CommandPlan {
        framebuffer_index: image_index,
        clear_color: ClearColor {
            red_milli: CLEAR_RED_MILLI,
            green_milli: CLEAR_GREEN_MILLI,
            blue_milli: CLEAR_BLUE_MILLI,
            alpha_milli: CLEAR_ALPHA_MILLI,
        },
    }
}

/// Drive one whole redraw as the shell would: decide, and if the decision
/// submits, account the given flush outcome. Returns the decision.
fn redraw(r: &mut FrameRenderer, acquire: AcquireOutcome, flush: FlushOutcome) -> FrameStep {
    let step = r.decide(acquire);
    if let FrameStep::Submit { image_index, commands } = step {
        r.finish_frame(image_index, commands, flush);
    }
    step
}

#[test]
fn initial_state_is_the_baseline() {
    let r = FrameRenderer::new(3);
    assert_eq!(r.image_count, 3);
    assert_eq!(r.frames_presented, 0);
    assert_eq!(r.previous_frame_end, GpuFuture::Now);
}

#[test]
fn submitted_frame_chains_the_token_in_order() {
    let mut r = FrameRenderer::new(2);
    let step = redraw(
        &mut r,
        AcquireOutcome::Image { index: 0, suboptimal: false },
        FlushOutcome::Flushed,
    );
    assert_eq!(
        step,
        FrameStep::Submit { image_index: 0, commands: expected_commands(0) }
    );
    // Join with the acquire signal first, then execute, present, fence.
    let expected = GpuFuture::Fenced {
        prev: Box::new(GpuFuture::Presented {
            prev: Box::new(GpuFuture::Executed {
                prev: Box::new(GpuFuture::Joined {
                    prev: Box::new(GpuFuture::Now),
                    image_index: 0,
                }),
                commands: expected_commands(0),
            }),
            image_index: 0,
        }),
    };
    assert_eq!(r.previous_frame_end, expected);
    assert_eq!(r.frames_presented, 1);
}

#[test]
fn steady_redraws_present_round_robin() {
    // Four redraws against a stable two-image swapchain: four successful
    // submit+present cycles, image indices stepping modulo the image count.
    let mut r = FrameRenderer::new(2);
    for frame in 0..4u64 {
        let index = (frame % 2) as usize;
        let step = redraw(
            &mut r,
            AcquireOutcome::Image { index, suboptimal: false },
            FlushOutcome::Flushed,
        );
        assert_eq!(
            step,
            FrameStep::Submit { image_index: index, commands: expected_commands(index) }
        );
        assert_eq!(r.frames_presented, frame + 1);
    }
}

#[test]
fn out_of_date_acquire_drops_the_frame() {
    let mut r = FrameRenderer::new(2);
    redraw(&mut r, AcquireOutcome::Image { index: 0, suboptimal: false }, FlushOutcome::Flushed);
    let token_before = format!("{:?}", r.previous_frame_end);
    let step = redraw(&mut r, AcquireOutcome::OutOfDate, FlushOutcome::Flushed);
    // Nothing submitted, nothing presented, state untouched, no panic.
    assert_eq!(step, FrameStep::Skip);
    assert_eq!(r.frames_presented, 1);
    assert_eq!(format!("{:?}", r.previous_frame_end), token_before);
}

#[test]
fn out_of_date_on_third_redraw_only_drops_that_frame() {
    // Frames 1 and 2 complete normally, frame 3 is silently dropped at
    // acquire, frame 4 proceeds normally again.
    let mut r = FrameRenderer::new(2);
    redraw(&mut r, AcquireOutcome::Image { index: 0, suboptimal: false }, FlushOutcome::Flushed);
    redraw(&mut r, AcquireOutcome::Image { index: 1, suboptimal: false }, FlushOutcome::Flushed);
    assert_eq!(r.frames_presented, 2);
    let step = redraw(&mut r, AcquireOutcome::OutOfDate, FlushOutcome::Flushed);
    assert_eq!(step, FrameStep::Skip);
    assert_eq!(r.frames_presented, 2);
    let step = redraw(
        &mut r,
        AcquireOutcome::Image { index: 0, suboptimal: false },
        FlushOutcome::Flushed,
    );
    assert_eq!(
        step,
        FrameStep::Submit { image_index: 0, commands: expected_commands(0) }
    );
    assert_eq!(r.frames_presented, 3);
}

#[test]
fn acquire_failure_is_fatal() {
    let r = FrameRenderer::new(2);
    assert_eq!(r.decide(AcquireOutcome::Failed), FrameStep::Fatal);
}

#[test]
fn acquired_index_past_the_image_sequence_is_fatal() {
    let r = FrameRenderer::new(2);
    let step = r.decide(AcquireOutcome::Image { index: 2, suboptimal: false });
    assert_eq!(step, FrameStep::Fatal);
}

#[test]
fn suboptimal_acquire_still_renders() {
    let mut r = FrameRenderer::new(2);
    let step = redraw(
        &mut r,
        AcquireOutcome::Image { index: 1, suboptimal: true },
        FlushOutcome::Flushed,
    );
    assert_eq!(
        step,
        FrameStep::Submit { image_index: 1, commands: expected_commands(1) }
    );
    assert_eq!(r.frames_presented, 1);
}

#[test]
fn out_of_date_flush_degrades_to_the_baseline() {
    let mut r = FrameRenderer::new(2);
    redraw(&mut r, AcquireOutcome::Image { index: 0, suboptimal: false }, FlushOutcome::Flushed);
    redraw(
        &mut r,
        AcquireOutcome::Image { index: 1, suboptimal: false },
        FlushOutcome::OutOfDate,
    );
    // The dropped frame is absorbed: fresh baseline token, no count step.
    assert_eq!(r.previous_frame_end, GpuFuture::Now);
    assert_eq!(r.frames_presented, 1);
}

#[test]
fn failed_flush_degrades_to_the_baseline() {
    let mut r = FrameRenderer::new(1);
    redraw(&mut r, AcquireOutcome::Image { index: 0, suboptimal: false }, FlushOutcome::Failed);
    assert_eq!(r.previous_frame_end, GpuFuture::Now);
    assert_eq!(r.frames_presented, 0);
}

#[test]
fn token_is_replaced_every_submitted_frame() {
    // Two flushed frames: the second frame's chain holds the first frame's
    // chain as its origin — the token moved, it was not duplicated.
    let mut r = FrameRenderer::new(2);
    redraw(&mut r, AcquireOutcome::Image { index: 0, suboptimal: false }, FlushOutcome::Flushed);
    let after_first = format!("{:?}", r.previous_frame_end);
    redraw(&mut r, AcquireOutcome::Image { index: 1, suboptimal: false }, FlushOutcome::Flushed);
    let after_second = format!("{:?}", r.previous_frame_end);
    assert_ne!(after_first, after_second);
    assert!(after_second.contains(&after_first));
}

#[test]
fn clear_color_is_the_fixed_bluish_color() {
    let r = FrameRenderer::new(1);
    let step = r.decide(AcquireOutcome::Image { index: 0, suboptimal: false });
    match step {
        FrameStep::Submit { commands, .. } => {
            assert_eq!(commands.clear_color.red_milli, 100);
            assert_eq!(commands.clear_color.green_milli, 100);
            assert_eq!(commands.clear_color.blue_milli, 200);
            assert_eq!(commands.clear_color.alpha_milli, 1000);
        }
        other => panic!("expected a submission, got {:?}", other),
    }
}
