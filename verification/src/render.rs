//! The render loop's state machine. The loop itself draws and sleeps
//! outside the library; it polls the quit notification once per iteration
//! and hands the observation in here.

use vstd::prelude::*;

verus! {

/// The render loop's states: drawing frames, tearing the terminal down, or
/// finished.
#[derive(Clone, Copy, PartialEq, Eq, Structural, Debug)]
pub enum RenderPhase {
    Running,
    Stopping,
    Stopped,
}

/// One transition of the render loop: it keeps running until the quit
/// notification is observed, then restores the terminal and stops. Stopped
/// is terminal.
pub open spec fn render_next(p: RenderPhase, quit_observed: bool) -> RenderPhase {
    match p {
        RenderPhase::Running => if quit_observed {
            RenderPhase::Stopping
        } else {
            RenderPhase::Running
        },
        RenderPhase::Stopping => RenderPhase::Stopped,
        RenderPhase::Stopped => RenderPhase::Stopped,
    }
}

/// Performs one render-loop transition.
pub fn render_step(p: RenderPhase, quit_observed: bool) -> (r: RenderPhase)
    ensures
        r == render_next(p, quit_observed),
{
    match p {
        RenderPhase::Running => if quit_observed {
            RenderPhase::Stopping
        } else {
            RenderPhase::Running
        },
        RenderPhase::Stopping => RenderPhase::Stopped,
        RenderPhase::Stopped => RenderPhase::Stopped,
    }
}

} // verus!
