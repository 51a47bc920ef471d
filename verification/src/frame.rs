//! The order of one frame's stages.
//!
//! Each frame runs the same five stages in the same order: platform input is
//! buffered, the whole widget tree is rebuilt once by the user's callback (no
//! frame may skip this, even when nothing visibly changed, or interaction
//! state drifts), the resulting shapes are tessellated into GPU primitives,
//! the recorded commands are submitted, and the frame is presented, which
//! readies the next one. The preconditions below make any other order, and any
//! second frame in flight against the same context, unprovable for a verified
//! caller.

use vstd::prelude::*;
use crate::shell::AppState;
use crate::shell::FrameInput;
use crate::shell::spec_tenths_after;

verus! {

/// Where a frame stands.
#[derive(Clone, Copy, PartialEq, Eq, Structural, Debug)]
pub enum FramePhase {
    /// No frame in flight.
    Idle,
    /// Platform input has been gathered for the frame.
    InputBuffered,
    /// The callback has rebuilt the widget tree once.
    UiBuilt,
    /// The shapes are tessellated into GPU-ready primitives.
    PrimitivesReady,
    /// The commands are submitted to the queue.
    Submitted,
}

/// The one frame in flight, if any.
pub struct FrameCycle {
    phase: FramePhase,
}

impl FrameCycle {
    /// The frame's current stage.
    pub closed spec fn phase(self) -> FramePhase {
        self.phase
    }

    /// A fresh cycle with no frame in flight.
    pub fn new() -> (c: Self)
        ensures
            c.phase() == FramePhase::Idle,
    {
        FrameCycle { phase: FramePhase::Idle }
    }

    /// Gathers the frame's input. Only an idle cycle may start a frame, so no
    /// two frames are ever in flight at once.
    pub fn buffer_input(&mut self)
        requires
            old(self).phase() == FramePhase::Idle,
        ensures
            final(self).phase() == FramePhase::InputBuffered,
    {
        self.phase = FramePhase::InputBuffered;
    }

    /// Rebuilds the widget tree once from the buffered input and applies the
    /// panel's clicks to the state; returns whether the host prints the action
    /// button's console message. The one place a frame may move the state.
    pub fn build_ui(&mut self, state: &mut AppState, input: FrameInput) -> (log_action: bool)
        requires
            old(self).phase() == FramePhase::InputBuffered,
            old(state).wf(),
        ensures
            final(self).phase() == FramePhase::UiBuilt,
            final(state).wf(),
            final(state).scale_factor.spec_tenths() == spec_tenths_after(
                old(state).scale_factor.spec_tenths(),
                input,
            ),
            final(state).surface_config == old(state).surface_config,
            final(state).close_requested == old(state).close_requested,
            log_action == input.action_clicked,
    {
        let log_action = state.run_ui_frame(input);
        self.phase = FramePhase::UiBuilt;
        log_action
    }

    /// Tessellates the rebuilt tree's shapes; only a built tree may be
    /// tessellated.
    pub fn tessellate(&mut self)
        requires
            old(self).phase() == FramePhase::UiBuilt,
        ensures
            final(self).phase() == FramePhase::PrimitivesReady,
    {
        self.phase = FramePhase::PrimitivesReady;
    }

    /// Submits the frame's commands; only tessellated primitives may be drawn
    /// and submitted.
    pub fn submit(&mut self)
        requires
            old(self).phase() == FramePhase::PrimitivesReady,
        ensures
            final(self).phase() == FramePhase::Submitted,
    {
        self.phase = FramePhase::Submitted;
    }

    /// Presents the submitted frame and returns the cycle to idle, freeing it
    /// for the next frame.
    pub fn present(&mut self)
        requires
            old(self).phase() == FramePhase::Submitted,
        ensures
            final(self).phase() == FramePhase::Idle,
    {
        self.phase = FramePhase::Idle;
    }
}

} // verus!
