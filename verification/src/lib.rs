//! Verified model of a minimal desktop application shell.
//!
//! The shell opens a native window, configures a GPU surface for it, and runs a
//! single-threaded event loop that draws an immediate-mode overlay each frame.
//! The window, the GPU device and the overlay engine live outside this crate;
//! what is verified here is every decision the shell makes: how the
//! user-adjustable scale factor is clamped, which surface configuration is
//! chosen and how it follows the window's size, in which order a frame's
//! stages may run, how GPU texture lifetimes are kept in sync with the
//! overlay's per-frame deltas, and when the loop renders, reconfigures or
//! exits.

mod frame;
mod scale;
mod shell;
mod surface;
mod textures;

pub use frame::FrameCycle;
pub use frame::FramePhase;
pub use scale::INITIAL_TENTHS;
pub use scale::MAX_TENTHS;
pub use scale::MIN_TENTHS;
pub use scale::ScaleFactor;
pub use scale::ScaleOp;
pub use scale::apply_op;
pub use scale::apply_ops;
pub use scale::lemma_clamp_idempotent_at_bounds;
pub use scale::lemma_scale_ops_bounded;
pub use shell::AppState;
pub use shell::FrameInput;
pub use shell::ShellAction;
pub use shell::ShellEvent;
pub use shell::lemma_close_latched;
pub use shell::lemma_no_render_after_close;
pub use shell::lemma_render_matches_latest_resize;
pub use shell::spec_run;
pub use shell::spec_step;
pub use shell::spec_tenths_after;
pub use surface::AlphaMode;
pub use surface::PresentMode;
pub use surface::SurfaceCaps;
pub use surface::SurfaceConfig;
pub use surface::SurfaceFormat;
pub use surface::build_surface_config;
pub use surface::preferred_format;
pub use surface::select_format;
pub use surface::spec_config_for;
pub use textures::TexEvent;
pub use textures::TextureTracker;
pub use textures::check_texture_trace;
pub use textures::lemma_added_eventually_freed;
pub use textures::live_after;
pub use textures::step_ok;
pub use textures::trace_complete;
pub use textures::trace_ok;
