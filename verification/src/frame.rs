//! Frame renderer: the per-redraw state machine that decides what one frame
//! submits and how the GPU synchronization token is chained across frames.
//!
//! The unverified shell performs the driver calls: it acquires the next
//! swapchain image, records the command buffer the decision here asks for,
//! submits and presents it, and flushes. The decisions stand here: what to do
//! with each acquire outcome (`decide`), and what the synchronization state
//! becomes after the submission is flushed (`finish_frame`).
//!
//! The "previous frame end" token is a single GPU future: the point up to
//! which all previously submitted GPU work is known to be complete or at
//! least correctly ordered. It has exactly one live owner. Each submitted
//! frame takes it (a move, never a copy), joins it with the acquire signal,
//! appends the command buffer's execution, the present request and a fence,
//! and the fenced chain becomes the new token. A failed flush degrades to the
//! fresh baseline instead of propagating an error.

use vstd::prelude::*;

verus! {

/// Red channel of the fixed clear color, in thousandths.
pub const CLEAR_RED_MILLI: u32 = 100;

/// Green channel of the fixed clear color, in thousandths.
pub const CLEAR_GREEN_MILLI: u32 = 100;

/// Blue channel of the fixed clear color, in thousandths.
pub const CLEAR_BLUE_MILLI: u32 = 200;

/// Alpha channel of the fixed clear color, in thousandths.
pub const CLEAR_ALPHA_MILLI: u32 = 1000;

/// A color, each channel in thousandths of full intensity (the shell divides
/// by a thousand for the driver, which takes fractional channels).
#[derive(Clone, Copy, PartialEq, Eq, Structural, Debug)]
pub struct ClearColor {
    pub red_milli: u32,
    pub green_milli: u32,
    pub blue_milli: u32,
    pub alpha_milli: u32,
}

/// The fixed, bluish color every frame clears the target to.
pub open spec fn fixed_clear_color() -> ClearColor {
    ClearColor {
        red_milli: CLEAR_RED_MILLI,
        green_milli: CLEAR_GREEN_MILLI,
        blue_milli: CLEAR_BLUE_MILLI,
        alpha_milli: CLEAR_ALPHA_MILLI,
    }
}

/// Contents of one frame's single-use command buffer: begin the render pass
/// on the framebuffer at `framebuffer_index`, clear the color attachment to
/// `clear_color`, end the pass. No draw commands are issued; a scene
/// component would insert them between begin and end.
#[derive(Clone, Copy, PartialEq, Eq, Structural, Debug)]
pub struct CommandPlan {
    pub framebuffer_index: usize,
    pub clear_color: ClearColor,
}

/// The command buffer recorded for the frame that renders into image
/// `image_index`: clear that image's framebuffer to the fixed color.
pub open spec fn frame_commands(image_index: usize) -> CommandPlan {
    CommandPlan { framebuffer_index: image_index, clear_color: fixed_clear_color() }
}

/// Outcome of the driver's image-acquire call, as the shell reports it.
#[derive(Clone, Copy, PartialEq, Eq, Structural, Debug)]
pub enum AcquireOutcome {
    /// An image is available at this index into the swapchain's image
    /// sequence (and so into the framebuffer sequence). `suboptimal` is the
    /// driver's hint that the swapchain no longer matches the surface
    /// perfectly; the frame still proceeds.
    Image { index: usize, suboptimal: bool },
    /// The swapchain no longer matches the surface and must be rebuilt.
    OutOfDate,
    /// Any other acquisition failure.
    Failed,
}

/// Outcome of the fence-and-flush call that ends a submission, as the shell
/// reports it.
#[derive(Clone, Copy, PartialEq, Eq, Structural, Debug)]
pub enum FlushOutcome {
    Flushed,
    OutOfDate,
    Failed,
}

/// A GPU future: a host-observable token for in-flight GPU work, composed of
/// the combinators the render loop chains. Deliberately not cloneable: the
/// token has one owner, and moves.
#[derive(PartialEq, Eq, Debug)]
pub enum GpuFuture {
    /// Fresh baseline tied to the device: no submitted work outstanding.
    Now,
    /// The previous token joined with the acquire signal of image
    /// `image_index`: the GPU waits for both before later work runs.
    Joined { prev: Box<GpuFuture>, image_index: usize },
    /// Execution of a command buffer appended after `prev`.
    Executed { prev: Box<GpuFuture>, commands: CommandPlan },
    /// A present request for image `image_index` appended after `prev`.
    Presented { prev: Box<GpuFuture>, image_index: usize },
    /// A fence and flush appended after `prev`, so the host can later query
    /// completion.
    Fenced { prev: Box<GpuFuture> },
}

/// The chain one submitted frame builds over the previous-frame-end token
/// `prev`, in the only safe order: join with the acquire signal first, then
/// execute the command buffer, then present, then fence and flush.
pub open spec fn submission_chain(prev: GpuFuture, image_index: usize, commands: CommandPlan) -> GpuFuture {
    GpuFuture::Fenced {
        prev: Box::new(
            GpuFuture::Presented {
                prev: Box::new(
                    GpuFuture::Executed {
                        prev: Box::new(
                            GpuFuture::Joined { prev: Box::new(prev), image_index },
                        ),
                        commands,
                    },
                ),
                image_index,
            },
        ),
    }
}

/// How many previous-frame-end tokens were chained into `c`: the join steps
/// it contains. Each submitted frame takes the token exactly once, so after
/// `n` flushed frames from the baseline this is exactly `n`.
pub open spec fn join_count(c: GpuFuture) -> nat
    decreases c,
{
    match c {
        GpuFuture::Now => 0,
        GpuFuture::Joined { prev, .. } => 1 + join_count(*prev),
        GpuFuture::Executed { prev, .. } => join_count(*prev),
        GpuFuture::Presented { prev, .. } => join_count(*prev),
        GpuFuture::Fenced { prev } => join_count(*prev),
    }
}

/// The image indices whose present requests `c` carries, oldest first: the
/// order the frames will reach the screen in.
pub open spec fn presents_of(c: GpuFuture) -> Seq<usize>
    decreases c,
{
    match c {
        GpuFuture::Now => Seq::empty(),
        GpuFuture::Joined { prev, .. } => presents_of(*prev),
        GpuFuture::Executed { prev, .. } => presents_of(*prev),
        GpuFuture::Presented { prev, image_index } => presents_of(*prev).push(image_index),
        GpuFuture::Fenced { prev } => presents_of(*prev),
    }
}

/// What one redraw does, decided from the acquire outcome.
#[derive(Clone, Copy, PartialEq, Eq, Structural, Debug)]
pub enum FrameStep {
    /// Record `commands`, submit them joined with the acquire signal, present
    /// image `image_index`, fence and flush.
    Submit { image_index: usize, commands: CommandPlan },
    /// The swapchain is out of date: drop this frame whole — submit nothing,
    /// present nothing, keep the state, and return without error.
    Skip,
    /// Unrecoverable failure: the shell must stop, as at startup.
    Fatal,
}

/// The frame renderer's host-side state between redraws. Nothing else
/// persists across frames: one image count, one counter of presented frames,
/// and the single synchronization token. The token is a total field — it can
/// never be absent, so no redraw can find it missing.
#[derive(PartialEq, Eq, Debug)]
pub struct FrameRenderer {
    /// How many images (and framebuffers) the current swapchain holds.
    pub image_count: usize,
    /// Completed submit-and-present cycles since creation.
    pub frames_presented: u64,
    /// The single previous-frame-end token.
    pub previous_frame_end: GpuFuture,
}

/// What `decide` answers: submit into the acquired image, drop the frame on
/// an out-of-date swapchain, stop on anything else (an acquired index past
/// the image sequence included, which a conforming driver never reports).
pub open spec fn decision(s: FrameRenderer, acquire: AcquireOutcome) -> FrameStep {
    match acquire {
        AcquireOutcome::Image { index, .. } => if index < s.image_count {
            FrameStep::Submit { image_index: index, commands: frame_commands(index) }
        } else {
            FrameStep::Fatal
        },
        AcquireOutcome::OutOfDate => FrameStep::Skip,
        AcquireOutcome::Failed => FrameStep::Fatal,
    }
}

/// What `finish_frame` leaves behind: on a successful flush the fenced chain
/// over the old token becomes the new token and the counter steps; on any
/// other flush outcome the dropped frame is absorbed and the token degrades
/// to the fresh baseline.
pub open spec fn after_submission(
    s: FrameRenderer,
    image_index: usize,
    commands: CommandPlan,
    flush: FlushOutcome,
) -> FrameRenderer {
    if flush is Flushed {
        FrameRenderer {
            image_count: s.image_count,
            frames_presented: (s.frames_presented + 1) as u64,
            previous_frame_end: submission_chain(s.previous_frame_end, image_index, commands),
        }
    } else {
        FrameRenderer {
            image_count: s.image_count,
            frames_presented: s.frames_presented,
            previous_frame_end: GpuFuture::Now,
        }
    }
}

/// One whole redraw: decide from the acquire outcome, and when the decision
/// submits, account the flush. A skipped or fatal frame leaves the state as
/// it was.
pub open spec fn cycle(s: FrameRenderer, acquire: AcquireOutcome, flush: FlushOutcome) -> FrameRenderer {
    match decision(s, acquire) {
        FrameStep::Submit { image_index, commands } => after_submission(
            s,
            image_index,
            commands,
            flush,
        ),
        FrameStep::Skip => s,
        FrameStep::Fatal => s,
    }
}

impl FrameRenderer {
    /// Well-formedness: a swapchain holds at least one image.
    pub open spec fn wf(self) -> bool {
        self.image_count >= 1
    }

    /// The renderer's starting state for a swapchain of `image_count` images:
    /// nothing presented yet, and the baseline token standing for "nothing
    /// has been submitted yet".
    pub fn new(image_count: usize) -> (r: FrameRenderer)
        requires
            image_count >= 1,
        ensures
            r.wf(),
            r.image_count == image_count,
            r.frames_presented == 0,
            r.previous_frame_end == GpuFuture::Now,
    {
        FrameRenderer { image_count, frames_presented: 0, previous_frame_end: GpuFuture::Now }
    }

    /// Decide what this redraw does with the acquire outcome the shell got
    /// from the driver. Out-of-date acquisition drops the frame without
    /// submitting anything and without failing.
    pub fn decide(&self, acquire: AcquireOutcome) -> (r: FrameStep)
        ensures
            r == decision(*self, acquire),
            acquire is OutOfDate ==> r is Skip,
            r matches FrameStep::Submit { image_index, commands } ==> {
                &&& acquire matches AcquireOutcome::Image { index, .. } && image_index == index
                &&& image_index < self.image_count
                &&& commands == frame_commands(image_index)
            },
    {
        match acquire {
            AcquireOutcome::Image { index, .. } => {
                if index < self.image_count {
                    FrameStep::Submit {
                        image_index: index,
                        commands: CommandPlan {
                            framebuffer_index: index,
                            clear_color: ClearColor {
                                red_milli: CLEAR_RED_MILLI,
                                green_milli: CLEAR_GREEN_MILLI,
                                blue_milli: CLEAR_BLUE_MILLI,
                                alpha_milli: CLEAR_ALPHA_MILLI,
                            },
                        },
                    }
                } else {
                    FrameStep::Fatal
                }
            },
            AcquireOutcome::OutOfDate => FrameStep::Skip,
            AcquireOutcome::Failed => FrameStep::Fatal,
        }
    }

    /// Take ownership of the previous-frame-end token, leaving the baseline
    /// in its place: the single-owner move the submission builds on.
    fn take_frame_end(&mut self) -> (r: GpuFuture)
        ensures
            r == old(self).previous_frame_end,
            final(self).previous_frame_end == GpuFuture::Now,
            final(self).image_count == old(self).image_count,
            final(self).frames_presented == old(self).frames_presented,
    {
        let mut taken = GpuFuture::Now;
        core::mem::swap(&mut taken, &mut self.previous_frame_end);
        taken
    }

    /// Account one submitted frame once the shell has flushed it: the old
    /// token moves into the fenced submission chain, which replaces it; on an
    /// out-of-date or failed flush the frame is absorbed and the token
    /// degrades to the fresh baseline. Either way the token is replaced
    /// exactly once and never left absent.
    pub fn finish_frame(&mut self, image_index: usize, commands: CommandPlan, flush: FlushOutcome)
        requires
            old(self).frames_presented < u64::MAX,
        ensures
            *final(self) == after_submission(*old(self), image_index, commands, flush),
            final(self).image_count == old(self).image_count,
            flush is Flushed ==> {
                &&& final(self).frames_presented == old(self).frames_presented + 1
                &&& final(self).previous_frame_end == submission_chain(
                    old(self).previous_frame_end,
                    image_index,
                    commands,
                )
            },
            !(flush is Flushed) ==> {
                &&& final(self).frames_presented == old(self).frames_presented
                &&& final(self).previous_frame_end == GpuFuture::Now
            },
    {
        let prev = self.take_frame_end();
        match flush {
            FlushOutcome::Flushed => {
                self.previous_frame_end = GpuFuture::Fenced {
                    prev: Box::new(
                        GpuFuture::Presented {
                            prev: Box::new(
                                GpuFuture::Executed {
                                    prev: Box::new(
                                        GpuFuture::Joined { prev: Box::new(prev), image_index },
                                    ),
                                    commands,
                                },
                            ),
                            image_index,
                        },
                    ),
                };
                self.frames_presented = self.frames_presented + 1;
            },
            FlushOutcome::OutOfDate => {
                // The frame's visible output is dropped; the baseline left by
                // the take stands, as the driver's token is discarded too.
            },
            FlushOutcome::Failed => {
                // The shell logs the error; the state degrades the same way.
            },
        }
    }
}

/// Law: when acquisition reports the swapchain out of date, the redraw drops
/// the frame whole. The decision is to skip, nothing is submitted or
/// presented, and the renderer's state — its synchronization token included —
/// is exactly what it was, whatever any flush outcome would have said.
pub proof fn lemma_out_of_date_drops_frame(s: FrameRenderer, flush: FlushOutcome)
    ensures
        decision(s, AcquireOutcome::OutOfDate) is Skip,
        cycle(s, AcquireOutcome::OutOfDate, flush) == s,
{
}

/// Law: every redraw leaves exactly one live synchronization token, and says
/// which. A frame dropped at acquire keeps the old token untouched; a flushed
/// submission moves the old token into the fenced chain that replaces it —
/// the chain holds it once, so it is never duplicated; a failed flush leaves
/// the fresh baseline. The token is a total field, so no redraw can find it
/// absent.
pub proof fn lemma_single_sync_owner(s: FrameRenderer, acquire: AcquireOutcome, flush: FlushOutcome)
    ensures
        decision(s, acquire) !is Submit ==> cycle(s, acquire, flush).previous_frame_end
            == s.previous_frame_end,
        decision(s, acquire) is Submit && flush is Flushed ==> cycle(
            s,
            acquire,
            flush,
        ).previous_frame_end == submission_chain(
            s.previous_frame_end,
            decision(s, acquire)->Submit_image_index,
            decision(s, acquire)->Submit_commands,
        ),
        decision(s, acquire) is Submit && !(flush is Flushed) ==> cycle(
            s,
            acquire,
            flush,
        ).previous_frame_end == GpuFuture::Now,
        decision(s, acquire) is Submit && flush is Flushed ==> join_count(
            cycle(s, acquire, flush).previous_frame_end,
        ) == join_count(s.previous_frame_end) + 1,
        decision(s, acquire) is Submit && flush is Flushed ==> presents_of(
            cycle(s, acquire, flush).previous_frame_end,
        ) == presents_of(s.previous_frame_end).push(
            decision(s, acquire)->Submit_image_index,
        ),
{
    reveal_with_fuel(join_count, 5);
    reveal_with_fuel(presents_of, 5);
}

/// Acquire outcome at redraw `t` (counted from zero) of a steady run that
/// starts at image `first`: a stable swapchain hands out its images
/// round-robin, in presentation order.
pub open spec fn steady_acquire(s: FrameRenderer, first: nat, t: nat) -> AcquireOutcome {
    AcquireOutcome::Image {
        index: ((first + t) % (s.image_count as nat)) as usize,
        suboptimal: false,
    }
}

/// The renderer's state after `n` redraws with a stable swapchain: every
/// acquire succeeds round-robin and every flush succeeds.
pub open spec fn steady_state(s: FrameRenderer, first: nat, n: nat) -> FrameRenderer
    decreases n,
{
    if n == 0 {
        s
    } else {
        cycle(
            steady_state(s, first, (n - 1) as nat),
            steady_acquire(s, first, (n - 1) as nat),
            FlushOutcome::Flushed,
        )
    }
}

/// Redraw `t` of a steady run decides to submit, into exactly the image the
/// acquire handed out.
pub open spec fn steady_step_submits(s: FrameRenderer, first: nat, t: nat) -> bool {
    decision(steady_state(s, first, t), steady_acquire(s, first, t)) == (FrameStep::Submit {
        image_index: ((first + t) % (s.image_count as nat)) as usize,
        commands: frame_commands(((first + t) % (s.image_count as nat)) as usize),
    })
}

/// The image indices a steady run of `n` redraws presents, in order: round
/// robin modulo the image count, starting at `first`.
pub open spec fn round_robin_indices(s: FrameRenderer, first: nat, n: nat) -> Seq<usize> {
    Seq::new(n, |t: int| ((first + t) % (s.image_count as int)) as usize)
}

/// Law: `n` redraws against a stable swapchain are `n` successful
/// submit-and-present cycles. Each one submits into the acquired image index,
/// which steps round-robin modulo the image count; the presented-frame
/// counter grows by exactly `n`; the token chains each frame onto the last,
/// taking the previous token exactly once per frame; and the chain carries
/// the present requests in exactly the order the redraws arrived.
pub proof fn lemma_steady_redraws(s: FrameRenderer, first: nat, n: nat)
    requires
        s.wf(),
        s.frames_presented + n <= u64::MAX,
    ensures
        steady_state(s, first, n).image_count == s.image_count,
        steady_state(s, first, n).wf(),
        steady_state(s, first, n).frames_presented == s.frames_presented + n,
        join_count(steady_state(s, first, n).previous_frame_end) == join_count(
            s.previous_frame_end,
        ) + n,
        presents_of(steady_state(s, first, n).previous_frame_end) == presents_of(
            s.previous_frame_end,
        ) + round_robin_indices(s, first, n),
        forall|t: nat| t < n ==> #[trigger] steady_step_submits(s, first, t),
    decreases n,
{
    if n == 0 {
        assert(presents_of(steady_state(s, first, n).previous_frame_end) =~= presents_of(
            s.previous_frame_end,
        ) + round_robin_indices(s, first, 0));
    } else {
        reveal_with_fuel(join_count, 5);
        reveal_with_fuel(presents_of, 5);
        let m = (n - 1) as nat;
        lemma_steady_redraws(s, first, m);
        assert((first + m) % (s.image_count as nat) < s.image_count as nat);
        assert(steady_step_submits(s, first, m));
        assert(round_robin_indices(s, first, n) =~= round_robin_indices(s, first, m).push(
            ((first + m) % (s.image_count as nat)) as usize,
        ));
        assert(presents_of(steady_state(s, first, n).previous_frame_end) =~= presents_of(
            s.previous_frame_end,
        ) + round_robin_indices(s, first, n));
        assert forall|t: nat| t < n implies #[trigger] steady_step_submits(s, first, t) by {
            if t < m {
            } else {
                assert(t == m);
            }
        }
    }
}

} // verus!
