//! The event loop's decisions.
//!
//! The loop is single threaded: each platform event is handled to completion
//! before the next. `AppState::handle_event` is the decision function from
//! state and event to new state and the one action the host performs: exit the
//! loop, reconfigure the surface, or render a frame. A close request latches
//! `close_requested`, and once it is set no event is ever answered with a
//! render action, so no further frame is drawn. Rendering always carries the
//! current surface configuration's size, and a resize sets that configuration
//! to exactly the new size, so the frame after a resize is drawn against the
//! resized configuration.

use vstd::prelude::*;
use crate::scale::INITIAL_TENTHS;
use crate::scale::ScaleFactor;
use crate::scale::ScaleOp;
use crate::scale::apply_op;
use crate::surface::SurfaceCaps;
use crate::surface::SurfaceConfig;
use crate::surface::build_surface_config;
use crate::surface::preferred_format;
use crate::surface::spec_config_for;

verus! {

/// One platform event, as the loop sees it.
#[derive(Clone, Copy, PartialEq, Eq, Structural, Debug)]
pub enum ShellEvent {
    /// The window's close button, or whatever else asks the shell to stop.
    CloseRequested,
    /// The platform wants the window drawn.
    RedrawRequested,
    /// The window now measures this many physical pixels.
    Resized(u32, u32),
    /// Any event the shell itself has no decision for (the overlay still sees
    /// it for its own input state).
    Other,
}

/// The one thing the host does in answer to an event.
#[derive(Clone, Copy, PartialEq, Eq, Structural, Debug)]
pub enum ShellAction {
    /// Leave the event loop; no further frames.
    Exit,
    /// Reconfigure the surface to this many physical pixels.
    Reconfigure(u32, u32),
    /// Draw one frame against a surface configured to this size.
    Render(u32, u32),
    /// Nothing.
    Ignore,
}

/// What the overlay's demo panel reported clicked this frame.
#[derive(Clone, Copy, PartialEq, Eq, Structural, Debug)]
pub struct FrameInput {
    /// The "Button!" button: the host prints its console message.
    pub action_clicked: bool,
    /// The "-" button: scale down a tenth.
    pub minus_clicked: bool,
    /// The "+" button: scale up a tenth.
    pub plus_clicked: bool,
}

/// Everything the shell decides with: the surface's configuration, the
/// user-adjustable scale factor, and whether a close was requested.
pub struct AppState {
    pub surface_config: SurfaceConfig,
    pub scale_factor: ScaleFactor,
    pub close_requested: bool,
}

/// What `handle_event` does, as one mathematical step.
pub open spec fn spec_step(s: AppState, ev: ShellEvent) -> (AppState, ShellAction) {
    match ev {
        ShellEvent::CloseRequested => (
            (AppState { close_requested: true, ..s }),
            ShellAction::Exit,
        ),
        ShellEvent::RedrawRequested => if s.close_requested {
            (s, ShellAction::Ignore)
        } else {
            (s, ShellAction::Render(s.surface_config.width, s.surface_config.height))
        },
        ShellEvent::Resized(w, h) => (
            (AppState { surface_config: (SurfaceConfig { width: w, height: h, ..s.surface_config }), ..s }),
            ShellAction::Reconfigure(w, h),
        ),
        ShellEvent::Other => (s, ShellAction::Ignore),
    }
}

/// The state after a whole sequence of events, applied left to right.
pub open spec fn spec_run(s: AppState, evs: Seq<ShellEvent>) -> AppState
    decreases evs.len(),
{
    if evs.len() == 0 {
        s
    } else {
        spec_run(spec_step(s, evs[0]).0, evs.subrange(1, evs.len() as int))
    }
}

impl AppState {
    /// The scale factor is in bounds.
    pub open spec fn wf(self) -> bool {
        self.scale_factor.wf()
    }

    /// Builds the state the shell starts with, for a window of `width` by
    /// `height` physical pixels and the capabilities its surface reports.
    /// Succeeds exactly when a configuration can be built (the preferred
    /// colour format is supported and an alpha mode is reported); the scale
    /// factor starts at 1.0 and no close is pending. On `None` the shell has
    /// no degraded fallback: the host treats it as fatal.
    pub fn new(width: u32, height: u32, caps: &SurfaceCaps) -> (r: Option<AppState>)
        ensures
            r is Some <==> (caps.formats@.contains(preferred_format()) && caps.alpha_modes@.len()
                > 0),
            r is Some ==> {
                &&& r->0.surface_config == spec_config_for(width, height, caps.alpha_modes@[0])
                &&& r->0.scale_factor.spec_tenths() == INITIAL_TENTHS
                &&& !r->0.close_requested
                &&& r->0.wf()
            },
    {
        match build_surface_config(width, height, caps) {
            Some(surface_config) => Some(
                AppState { surface_config, scale_factor: ScaleFactor::new(), close_requested: false },
            ),
            None => None,
        }
    }

    /// Decides one event: the state moves and the returned action is exactly
    /// what `spec_step` says. In particular a close request latches
    /// `close_requested` and answers `Exit`; a resize sets the configuration
    /// to exactly the new size and answers `Reconfigure`; a redraw answers
    /// `Render` with the current configuration's size unless a close was
    /// requested, after which nothing is ever rendered again.
    pub fn handle_event(&mut self, event: ShellEvent) -> (a: ShellAction)
        ensures
            ((*final(self), a)) == spec_step(*old(self), event),
    {
        match event {
            ShellEvent::CloseRequested => {
                self.close_requested = true;
                ShellAction::Exit
            },
            ShellEvent::RedrawRequested => {
                if self.close_requested {
                    ShellAction::Ignore
                } else {
                    ShellAction::Render(self.surface_config.width, self.surface_config.height)
                }
            },
            ShellEvent::Resized(w, h) => {
                self.surface_config.resize(w, h);
                proof {
                    assert(self.surface_config == (SurfaceConfig {
                        width: w,
                        height: h,
                        ..old(self).surface_config
                    }));
                }
                ShellAction::Reconfigure(w, h)
            },
            ShellEvent::Other => ShellAction::Ignore,
        }
    }

    /// Runs the demo panel's effect on the state for one frame: a "-" click
    /// then a "+" click each move the scale factor one clamped tenth, in that
    /// order; the returned flag tells the host to print the action button's
    /// console message. Nothing else of the state moves.
    pub fn run_ui_frame(&mut self, input: FrameInput) -> (log_action: bool)
        requires
            old(self).wf(),
        ensures
            final(self).wf(),
            final(self).scale_factor.spec_tenths() == spec_tenths_after(
                old(self).scale_factor.spec_tenths(),
                input,
            ),
            final(self).surface_config == old(self).surface_config,
            final(self).close_requested == old(self).close_requested,
            log_action == input.action_clicked,
    {
        if input.minus_clicked {
            self.scale_factor.decrease();
        }
        if input.plus_clicked {
            self.scale_factor.increase();
        }
        input.action_clicked
    }
}

/// The scale factor in tenths after one frame's clicks: the "-" click is
/// applied first, then the "+" click, each clamped.
pub open spec fn spec_tenths_after(t: int, input: FrameInput) -> int {
    let after_minus = if input.minus_clicked {
        apply_op(t, ScaleOp::Decrease)
    } else {
        t
    };
    if input.plus_clicked {
        apply_op(after_minus, ScaleOp::Increase)
    } else {
        after_minus
    }
}

/// A close request is latched: one step never clears `close_requested`.
proof fn lemma_close_latched_step(s: AppState, ev: ShellEvent)
    requires
        s.close_requested,
    ensures
        spec_step(s, ev).0.close_requested,
{
}

/// A close request stays latched over any sequence of further events.
pub proof fn lemma_close_latched(s: AppState, evs: Seq<ShellEvent>)
    requires
        s.close_requested,
    ensures
        spec_run(s, evs).close_requested,
    decreases evs.len(),
{
    if evs.len() > 0 {
        lemma_close_latched_step(s, evs[0]);
        lemma_close_latched(spec_step(s, evs[0]).0, evs.subrange(1, evs.len() as int));
    }
}

/// Running one event further is one more step: the run over `evs.take(n + 1)`
/// is the step of `evs[n]` from the run over `evs.take(n)`.
proof fn lemma_run_split(s: AppState, evs: Seq<ShellEvent>, n: int)
    requires
        0 <= n < evs.len(),
    ensures
        spec_run(s, evs.take(n + 1)) == spec_step(spec_run(s, evs.take(n)), evs[n]).0,
    decreases n,
{
    if n == 0 {
        assert(evs.take(0) =~= Seq::<ShellEvent>::empty());
        assert(spec_run(s, evs.take(0)) == s);
        assert(evs.take(1)[0] == evs[0]);
        assert(evs.take(1).subrange(1, 1) =~= Seq::<ShellEvent>::empty());
        assert(spec_run(s, evs.take(1)) == spec_run(
            spec_step(s, evs[0]).0,
            Seq::<ShellEvent>::empty(),
        ));
    } else {
        let s1 = spec_step(s, evs[0]).0;
        let rest = evs.subrange(1, evs.len() as int);
        assert(evs.take(n)[0] == evs[0]);
        assert(evs.take(n + 1)[0] == evs[0]);
        assert(evs.take(n).subrange(1, n) =~= rest.take(n - 1));
        assert(evs.take(n + 1).subrange(1, n + 1) =~= rest.take(n));
        assert(spec_run(s, evs.take(n)) == spec_run(s1, rest.take(n - 1)));
        assert(spec_run(s, evs.take(n + 1)) == spec_run(s1, rest.take(n)));
        lemma_run_split(s1, rest, n - 1);
        assert(rest[n - 1] == evs[n]);
    }
}

/// After a close request no later event is answered with a render action: no
/// further frame is drawn.
pub proof fn lemma_no_render_after_close(s: AppState, evs: Seq<ShellEvent>, i: int, j: int)
    requires
        0 <= i < j < evs.len(),
        evs[i] == ShellEvent::CloseRequested,
    ensures
        !(spec_step(spec_run(s, evs.take(j)), evs[j]).1 is Render),
{
    lemma_run_split(s, evs, i);
    let closed = spec_run(s, evs.take(i + 1));
    assert(closed.close_requested);
    lemma_take_chain(s, evs, i + 1, j);
    assert(spec_run(s, evs.take(j)).close_requested);
}

/// Running to `m` equals running to `k` and then over `evs[k..m]`; with the
/// latch lemma this carries `close_requested` forward.
proof fn lemma_take_chain(s: AppState, evs: Seq<ShellEvent>, k: int, m: int)
    requires
        0 <= k <= m <= evs.len(),
        spec_run(s, evs.take(k)).close_requested,
    ensures
        spec_run(s, evs.take(m)).close_requested,
    decreases m - k,
{
    if m > k {
        lemma_run_split(s, evs, k);
        lemma_close_latched_step(spec_run(s, evs.take(k)), evs[k]);
        lemma_take_chain(s, evs, k + 1, m);
    }
}

/// A step never changes the surface configuration unless the event is a
/// resize.
proof fn lemma_config_stable_step(s: AppState, ev: ShellEvent)
    requires
        !(ev is Resized),
    ensures
        spec_step(s, ev).0.surface_config == s.surface_config,
{
}

/// The configuration after running to `m` is the one set by a resize at
/// `k - 1` as long as no later resize stands before `m`.
proof fn lemma_config_stable_chain(s: AppState, evs: Seq<ShellEvent>, k: int, m: int)
    requires
        0 <= k <= m <= evs.len(),
        forall|j: int| k <= j < m ==> !(evs[j] is Resized),
    ensures
        spec_run(s, evs.take(m)).surface_config == spec_run(s, evs.take(k)).surface_config,
    decreases m - k,
{
    if m > k {
        lemma_run_split(s, evs, k);
        lemma_config_stable_step(spec_run(s, evs.take(k)), evs[k]);
        lemma_config_stable_chain(s, evs, k + 1, m);
    }
}

/// A frame rendered after a resize, with no other resize in between, is
/// rendered against exactly the resized width and height: the configuration
/// is updated before the next frame is presented, and a frame against a
/// mismatched configuration cannot be decided.
pub proof fn lemma_render_matches_latest_resize(
    s: AppState,
    evs: Seq<ShellEvent>,
    w: u32,
    h: u32,
    i: int,
    j: int,
)
    requires
        0 <= i < j < evs.len(),
        evs[i] == ShellEvent::Resized(w, h),
        forall|k: int| i < k < j ==> !(evs[k] is Resized),
        spec_step(spec_run(s, evs.take(j)), evs[j]).1 is Render,
    ensures
        spec_step(spec_run(s, evs.take(j)), evs[j]).1 == ShellAction::Render(w, h),
{
    lemma_run_split(s, evs, i);
    let resized = spec_run(s, evs.take(i + 1));
    assert(resized.surface_config.width == w);
    assert(resized.surface_config.height == h);
    lemma_config_stable_chain(s, evs, i + 1, j);
    let before = spec_run(s, evs.take(j));
    assert(before.surface_config.width == w);
    assert(before.surface_config.height == h);
}

} // verus!
