//! The per-frame command plan: the fixed clear color and the exact
//! sequence of recording, submission and presentation steps a successful
//! frame performs.

use vstd::prelude::*;
use crate::event::SurfaceError;

verus! {

/// The red channel of the fixed clear color, in thousandths of a unit.
pub const CLEAR_R_MILLI: u32 = 100;

/// The green channel of the fixed clear color, in thousandths of a unit.
pub const CLEAR_G_MILLI: u32 = 200;

/// The blue channel of the fixed clear color, in thousandths of a unit.
pub const CLEAR_B_MILLI: u32 = 300;

/// The alpha channel of the fixed clear color, in thousandths of a unit.
pub const CLEAR_A_MILLI: u32 = 1000;

/// A color, each channel in thousandths of a unit (1000 is full
/// intensity). The embedder divides by 1000 when it hands the color to
/// the backend.
#[derive(Clone, Copy, PartialEq, Eq, Structural, Debug)]
pub struct ClearColor {
    pub r_milli: u32,
    pub g_milli: u32,
    pub b_milli: u32,
    pub a_milli: u32,
}

/// The one color every frame clears to.
pub open spec fn spec_clear_color() -> ClearColor {
    ClearColor {
        r_milli: CLEAR_R_MILLI,
        g_milli: CLEAR_G_MILLI,
        b_milli: CLEAR_B_MILLI,
        a_milli: CLEAR_A_MILLI,
    }
}

/// Returns the fixed clear color.
pub fn clear_color() -> (c: ClearColor)
    ensures
        c == spec_clear_color(),
{
    ClearColor {
        r_milli: CLEAR_R_MILLI,
        g_milli: CLEAR_G_MILLI,
        b_milli: CLEAR_B_MILLI,
        a_milli: CLEAR_A_MILLI,
    }
}

/// One step of a frame: what the embedder does with the presentable
/// texture it acquired, in order.
#[derive(Clone, Copy, PartialEq, Eq, Structural, Debug)]
pub enum FrameStep {
    /// Create a default view over the acquired texture.
    CreateView,
    /// Open a command encoder.
    OpenEncoder,
    /// Begin the one render pass, with a single color attachment whose
    /// load operation clears to the given color and whose store
    /// operation stores.
    BeginClearPass(ClearColor),
    /// End the render pass: recording into it stops here, before the
    /// encoder is finished.
    EndPass,
    /// Finish the encoder into a single command buffer.
    FinishEncoder,
    /// Submit that one command buffer to the queue.
    Submit,
    /// Present the acquired texture.
    Present,
}

/// The steps of every successful frame, in order.
pub open spec fn spec_frame_steps() -> Seq<FrameStep> {
    seq![
        FrameStep::CreateView,
        FrameStep::OpenEncoder,
        FrameStep::BeginClearPass(spec_clear_color()),
        FrameStep::EndPass,
        FrameStep::FinishEncoder,
        FrameStep::Submit,
        FrameStep::Present,
    ]
}

/// Turns the outcome of acquiring the next presentable texture into the
/// frame's plan. On a successful acquisition the plan is the full fixed
/// step sequence; on a failed one the error is handed back unchanged and
/// nothing is recorded, submitted or presented.
pub fn plan_frame(acquired: Result<(), SurfaceError>) -> (r: Result<Vec<FrameStep>, SurfaceError>)
    ensures
        r is Ok <==> acquired is Ok,
        r is Ok ==> r->Ok_0@ == spec_frame_steps(),
        r is Err ==> r->Err_0 == acquired->Err_0,
{
    match acquired {
        Ok(()) => {
            let mut steps: Vec<FrameStep> = Vec::new();
            steps.push(FrameStep::CreateView);
            steps.push(FrameStep::OpenEncoder);
            steps.push(FrameStep::BeginClearPass(clear_color()));
            steps.push(FrameStep::EndPass);
            steps.push(FrameStep::FinishEncoder);
            steps.push(FrameStep::Submit);
            steps.push(FrameStep::Present);
            proof {
                assert(steps@ =~= spec_frame_steps());
            }
            Ok(steps)
        },
        Err(e) => Err(e),
    }
}

/// Every frame clears to the one fixed color: the plan contains a clear
/// pass, and any clear pass in it carries exactly that color.
pub proof fn lemma_clear_color_invariant()
    ensures
        exists|i: int|
            0 <= i < spec_frame_steps().len() && spec_frame_steps()[i] is BeginClearPass,
        forall|i: int|
            0 <= i < spec_frame_steps().len() && spec_frame_steps()[i] is BeginClearPass
                ==> spec_frame_steps()[i]->BeginClearPass_0 == spec_clear_color(),
{
    assert(spec_frame_steps()[2] is BeginClearPass);
}

/// Exactly one command buffer is submitted and exactly one present
/// occurs per successful frame; nothing is presented before the
/// submission, and the render pass is closed before the encoder is
/// finished.
pub proof fn lemma_single_submit_single_present()
    ensures
        exists|i: int| 0 <= i < spec_frame_steps().len() && spec_frame_steps()[i] is Submit,
        exists|i: int| 0 <= i < spec_frame_steps().len() && spec_frame_steps()[i] is Present,
        forall|i: int, j: int|
            (0 <= i < spec_frame_steps().len() && 0 <= j < spec_frame_steps().len()
                && spec_frame_steps()[i] is Submit && spec_frame_steps()[j] is Submit) ==> i == j,
        forall|i: int, j: int|
            (0 <= i < spec_frame_steps().len() && 0 <= j < spec_frame_steps().len()
                && spec_frame_steps()[i] is Present && spec_frame_steps()[j] is Present) ==> i == j,
        forall|i: int, j: int|
            (0 <= i < spec_frame_steps().len() && 0 <= j < spec_frame_steps().len()
                && spec_frame_steps()[i] is Submit && spec_frame_steps()[j] is Present) ==> i < j,
        forall|i: int, j: int|
            (0 <= i < spec_frame_steps().len() && 0 <= j < spec_frame_steps().len()
                && spec_frame_steps()[i] is EndPass && spec_frame_steps()[j] is FinishEncoder)
                ==> i < j,
{
    assert(spec_frame_steps()[5] is Submit);
    assert(spec_frame_steps()[6] is Present);
}

} // verus!
