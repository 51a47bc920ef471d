//! The presentable surface's configuration.
//!
//! At start-up the shell asks the surface for its capabilities, insists on one
//! exact preferred colour format (there is no fallback to another supported
//! format), and configures the surface with the window's physical size, that
//! format, vsync presentation and the first supported alpha mode. On every
//! window resize the configuration's width and height are set to exactly the
//! new physical size before the next frame is acquired.

use vstd::prelude::*;

verus! {

/// A surface colour format, as the GPU reports it.
#[derive(Clone, Copy, PartialEq, Eq, Structural, Debug)]
pub enum SurfaceFormat {
    Bgra8Unorm,
    Bgra8UnormSrgb,
    Rgba8Unorm,
    Rgba8UnormSrgb,
    /// Any format the shell has no use for.
    Other,
}

/// How surface colours blend with what is behind the window.
#[derive(Clone, Copy, PartialEq, Eq, Structural, Debug)]
pub enum AlphaMode {
    Auto,
    Opaque,
    PreMultiplied,
    PostMultiplied,
    Inherit,
}

/// When a finished frame reaches the screen.
#[derive(Clone, Copy, PartialEq, Eq, Structural, Debug)]
pub enum PresentMode {
    AutoVsync,
    AutoNoVsync,
    Fifo,
    Immediate,
    Mailbox,
}

/// What the surface reports it can do: the supported colour formats and alpha
/// modes, each in the surface's order of preference.
pub struct SurfaceCaps {
    pub formats: Vec<SurfaceFormat>,
    pub alpha_modes: Vec<AlphaMode>,
}

/// The configuration a surface is (re)configured with.
pub struct SurfaceConfig {
    /// Width in physical pixels.
    pub width: u32,
    /// Height in physical pixels.
    pub height: u32,
    pub format: SurfaceFormat,
    pub present_mode: PresentMode,
    pub alpha_mode: AlphaMode,
    /// How many frames may be queued ahead of the one being drawn.
    pub frame_latency: u32,
}

/// The one colour format the shell accepts.
pub open spec fn preferred_format() -> SurfaceFormat {
    SurfaceFormat::Bgra8UnormSrgb
}

/// The configuration the shell builds for a window of `width` by `height`
/// physical pixels and a surface whose first supported alpha mode is `alpha`.
pub open spec fn spec_config_for(width: u32, height: u32, alpha: AlphaMode) -> SurfaceConfig {
    SurfaceConfig {
        width,
        height,
        format: preferred_format(),
        present_mode: PresentMode::AutoVsync,
        alpha_mode: alpha,
        frame_latency: 0,
    }
}

/// Picks the preferred colour format out of the formats a surface supports.
/// Succeeds exactly when the preferred format is among them; the shell never
/// falls back to a different supported format.
pub fn select_format(formats: &Vec<SurfaceFormat>) -> (r: Option<SurfaceFormat>)
    ensures
        r is Some <==> formats@.contains(preferred_format()),
        r is Some ==> r->0 == preferred_format(),
{
    let mut i: usize = 0;
    while i < formats.len()
        invariant
            0 <= i <= formats@.len(),
            forall|k: int| 0 <= k < i ==> formats@[k] != preferred_format(),
        decreases formats@.len() - i,
    {
        if formats[i] == SurfaceFormat::Bgra8UnormSrgb {
            return Some(formats[i]);
        }
        i = i + 1;
    }
    None
}

/// Builds the configuration for a window of `width` by `height` physical
/// pixels from what the surface reports. Succeeds exactly when the preferred
/// colour format is supported and at least one alpha mode is reported; the
/// configuration is then the window's exact size, the preferred format, vsync
/// presentation, the first reported alpha mode and no extra frame latency.
pub fn build_surface_config(width: u32, height: u32, caps: &SurfaceCaps) -> (r: Option<
    SurfaceConfig,
>)
    ensures
        r is Some <==> (caps.formats@.contains(preferred_format()) && caps.alpha_modes@.len()
            > 0),
        r is Some ==> r->0 == spec_config_for(width, height, caps.alpha_modes@[0]),
{
    let format = match select_format(&caps.formats) {
        Some(f) => f,
        None => {
            return None;
        },
    };
    if caps.alpha_modes.len() == 0 {
        return None;
    }
    Some(
        SurfaceConfig {
            width,
            height,
            format,
            present_mode: PresentMode::AutoVsync,
            alpha_mode: caps.alpha_modes[0],
            frame_latency: 0,
        },
    )
}

impl SurfaceConfig {
    /// Reconfigures for a window of `width` by `height` physical pixels:
    /// exactly that size, everything else kept.
    pub fn resize(&mut self, width: u32, height: u32)
        ensures
            final(self).width == width,
            final(self).height == height,
            final(self).format == old(self).format,
            final(self).present_mode == old(self).present_mode,
            final(self).alpha_mode == old(self).alpha_mode,
            final(self).frame_latency == old(self).frame_latency,
    {
        self.width = width;
        self.height = height;
    }
}

} // verus!
