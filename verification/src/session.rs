//! The graphics session: the negotiated surface configuration and the
//! policy that maintains it across resizes.
//!
//! The embedding application performs the actual backend calls
//! (enumerating adapters, opening the device, configuring the surface)
//! and reports their outcomes; the session decides what to configure
//! and when a reported size must not reach the device at all.

use vstd::prelude::*;
use crate::error::SessionError;
use crate::format::AlphaMode;
use crate::format::Backend;
use crate::format::PresentMode;
use crate::format::TextureFormat;
use crate::format::choose_format;
use crate::format::choose_view_formats;
use crate::format::negotiated_format;
use crate::format::negotiated_view_formats;
use crate::format::with_srgb;
use crate::pixels::LogicalSize;
use crate::pixels::PhysicalSize;
use crate::pixels::ScaleFactor;
use crate::pixels::physical_of;
use crate::pixels::to_physical;

verus! {

/// The number of frames the presentation engine may hold in flight.
pub const MAX_FRAMES_IN_FLIGHT: u32 = 2;

/// The negotiated swap-chain contract: size, format and presentation
/// parameters of the presentable surface. Sizes are physical pixels,
/// and a well-formed configuration is never 0 in either dimension.
#[derive(Debug, PartialEq, Eq)]
pub struct SurfaceConfig {
    pub format: TextureFormat,
    pub width: u32,
    pub height: u32,
    pub present_mode: PresentMode,
    pub alpha_mode: AlphaMode,
    pub view_formats: Vec<TextureFormat>,
    pub max_frame_latency: u32,
}

impl SurfaceConfig {
    /// A configuration that may be handed to the device: a non-empty
    /// extent in both dimensions, vertical sync, and the fixed
    /// in-flight frame budget.
    pub open spec fn wf(self) -> bool {
        &&& self.width > 0
        &&& self.height > 0
        &&& self.present_mode == PresentMode::Fifo
        &&& self.max_frame_latency == MAX_FRAMES_IN_FLIGHT
    }
}

/// What the surface and adapter pair reported at setup: the
/// display-capable formats and alpha modes in preference order, and
/// whether the backend accepts explicit sRGB view formats.
#[derive(Debug, PartialEq, Eq)]
pub struct SurfaceCaps {
    pub formats: Vec<TextureFormat>,
    pub alpha_modes: Vec<AlphaMode>,
    pub srgb_view_formats: bool,
}

/// Static diagnostic metadata of the selected adapter.
#[derive(Debug, PartialEq, Eq)]
pub struct AdapterInfo {
    pub name: String,
    pub backend: Backend,
}

/// The outcome of the one-time device setup the embedding application
/// performs: either no adapter satisfies the surface, or the adapter
/// refused a logical device, or everything is in place and the surface
/// capabilities are known.
#[derive(Debug, PartialEq, Eq)]
pub enum SetupOutcome {
    /// No physical GPU is compatible with the surface.
    NoAdapter,
    /// An adapter was found but did not yield a device; carries the
    /// backend's diagnostic.
    DeviceRefused { adapter: AdapterInfo, diagnostic: String },
    /// Adapter and device are ready and the surface reported its
    /// capabilities.
    Ready { adapter: AdapterInfo, caps: SurfaceCaps },
}

/// Whether a reconfigure request with this physical size is a no-op: a
/// zero extent means a minimized or hidden window, and a size equal to
/// the current configuration would only tear the swap chain down to
/// rebuild it identically.
pub open spec fn reconfigure_skips(s: Session, size: PhysicalSize) -> bool {
    ||| size.width == 0
    ||| size.height == 0
    ||| (size.width == s.config.width && size.height == s.config.height)
}

/// The session after a reconfigure request: unchanged when the request
/// is a no-op, otherwise the same session with the configured extent
/// replaced.
pub open spec fn reconfigured(s: Session, size: PhysicalSize) -> Session {
    if reconfigure_skips(s, size) {
        s
    } else {
        Session {
            config: SurfaceConfig { width: size.width, height: size.height, ..s.config },
            ..s
        }
    }
}

/// What the embedding application must do with the surface after a
/// reconfigure request.
#[derive(Clone, Copy, Debug, PartialEq, Eq, Structural)]
pub enum SurfaceAction {
    /// Leave the surface as it is.
    Keep,
    /// Configure the surface against the device with the session's
    /// current configuration.
    Apply,
}

/// The graphics session: owns the negotiated surface configuration,
/// the display scale, and the adapter metadata. The platform window
/// must outlive the surface this configuration describes.
#[derive(Debug)]
pub struct Session {
    pub adapter: AdapterInfo,
    pub config: SurfaceConfig,
    pub scale: ScaleFactor,
    pub srgb_views: bool,
}

impl Session {
    /// A session whose configuration may be handed to the device and
    /// whose view formats match the negotiated capability.
    pub open spec fn wf(self) -> bool {
        &&& self.config.wf()
        &&& self.scale.wf()
        &&& self.config.view_formats@ == negotiated_view_formats(
            self.config.format,
            self.srgb_views,
        )
    }

    /// Establish the session from the reported setup outcome.
    ///
    /// Fails with `NoCompatibleAdapter` when no adapter satisfies the
    /// surface, and with `DeviceCreationFailed` (diagnostic attached)
    /// when the adapter refused a device. Otherwise the configuration
    /// takes the first reported format (its linear variant where sRGB
    /// views are refused), the first reported alpha mode, vertical
    /// sync, and the initial size converted to physical pixels.
    pub fn create(setup: SetupOutcome, initial_size: LogicalSize, scale: ScaleFactor) -> (r:
        Result<Session, SessionError>)
        requires
            scale.wf(),
            setup matches SetupOutcome::Ready { caps, .. } ==> caps.formats@.len() > 0
                && caps.alpha_modes@.len() > 0,
            setup is Ready ==> physical_of(initial_size, scale).width > 0 && physical_of(
                initial_size,
                scale,
            ).height > 0,
        ensures
            setup is NoAdapter <==> (r matches Err(e) && e == SessionError::NoCompatibleAdapter),
            setup matches SetupOutcome::DeviceRefused { diagnostic, .. } ==> (r matches Err(e)
                && e == SessionError::DeviceCreationFailed(diagnostic)),
            setup matches SetupOutcome::Ready { adapter, caps } ==> (r matches Ok(s) && {
                &&& s.wf()
                &&& s.adapter == adapter
                &&& s.scale == scale
                &&& s.srgb_views == caps.srgb_view_formats
                &&& s.config.format == negotiated_format(caps.formats@, caps.srgb_view_formats)
                &&& s.config.width == physical_of(initial_size, scale).width
                &&& s.config.height == physical_of(initial_size, scale).height
                &&& s.config.present_mode == PresentMode::Fifo
                &&& s.config.alpha_mode == caps.alpha_modes@[0]
                &&& s.config.view_formats@ == negotiated_view_formats(
                    s.config.format,
                    caps.srgb_view_formats,
                )
                &&& s.config.max_frame_latency == MAX_FRAMES_IN_FLIGHT
            }),
    {
        match setup {
            SetupOutcome::NoAdapter => Err(SessionError::NoCompatibleAdapter),
            SetupOutcome::DeviceRefused { diagnostic, .. } => Err(
                SessionError::DeviceCreationFailed(diagnostic),
            ),
            SetupOutcome::Ready { adapter, caps } => {
                let size = to_physical(initial_size, scale);
                let format = choose_format(&caps.formats, caps.srgb_view_formats);
                let view_formats = choose_view_formats(format, caps.srgb_view_formats);
                let alpha_mode = caps.alpha_modes[0];
                Ok(
                    Session {
                        adapter,
                        config: SurfaceConfig {
                            format,
                            width: size.width,
                            height: size.height,
                            present_mode: PresentMode::Fifo,
                            alpha_mode,
                            view_formats,
                            max_frame_latency: MAX_FRAMES_IN_FLIGHT,
                        },
                        scale,
                        srgb_views: caps.srgb_view_formats,
                    },
                )
            },
        }
    }

    /// Request the surface to match a new physical size.
    ///
    /// A zero extent (minimized window) and a size equal to the
    /// current configuration change nothing and ask for no surface
    /// call; any other size replaces the configured extent, and the
    /// caller must then configure the surface once.
    pub fn reconfigure(&mut self, new_size: PhysicalSize) -> (r: SurfaceAction)
        requires
            old(self).wf(),
        ensures
            *final(self) == reconfigured(*old(self), new_size),
            final(self).wf(),
            (r == SurfaceAction::Apply) <==> !reconfigure_skips(*old(self), new_size),
    {
        if new_size.width == 0 || new_size.height == 0 {
            return SurfaceAction::Keep;
        }
        if new_size.width == self.config.width && new_size.height == self.config.height {
            return SurfaceAction::Keep;
        }
        self.config.width = new_size.width;
        self.config.height = new_size.height;
        SurfaceAction::Apply
    }

    /// Take a resize notification in logical pixels: convert it to
    /// physical pixels — the only place that conversion happens — and
    /// reconfigure.
    pub fn handle_resize(&mut self, reported: LogicalSize) -> (r: SurfaceAction)
        requires
            old(self).wf(),
        ensures
            *final(self) == reconfigured(
                *old(self),
                physical_of(reported, old(self).scale),
            ),
            final(self).wf(),
            (r == SurfaceAction::Apply) <==> !reconfigure_skips(
                *old(self),
                physical_of(reported, old(self).scale),
            ),
    {
        let scale = self.scale;
        let size = to_physical(reported, scale);
        self.reconfigure(size)
    }

    /// The physical size the surface is currently configured with.
    pub fn configured_size(&self) -> (r: PhysicalSize)
        ensures
            r.width == self.config.width,
            r.height == self.config.height,
    {
        PhysicalSize { width: self.config.width, height: self.config.height }
    }

    /// Static adapter metadata for diagnostics; reads nothing mutable
    /// and changes nothing.
    pub fn adapter_info(&self) -> (r: &AdapterInfo)
        ensures
            *r == self.adapter,
    {
        &self.adapter
    }

    /// The texture format frame-target views are created with: the
    /// sRGB-encoded variant of the configured format.
    pub fn frame_view_format(&self) -> (r: TextureFormat)
        ensures
            r == with_srgb(self.config.format),
    {
        self.config.format.add_srgb_suffix()
    }
}

/// Reconfiguring twice with the same non-zero size rebuilds the
/// surface at most once: after the first request the second is a
/// no-op.
pub proof fn lemma_reconfigure_idempotent(s: Session, size: PhysicalSize)
    requires
        size.width > 0,
        size.height > 0,
    ensures
        reconfigure_skips(reconfigured(s, size), size),
        reconfigured(reconfigured(s, size), size) == reconfigured(s, size),
{
}

/// A reported size with a zero extent never reaches the surface: the
/// request is a no-op and the configuration keeps its non-zero
/// invariant.
pub proof fn lemma_zero_size_skips(s: Session, size: PhysicalSize)
    requires
        size.width == 0 || size.height == 0,
    ensures
        reconfigure_skips(s, size),
        reconfigured(s, size) == s,
{
}

/// Reconfiguration only ever replaces the configured extent: the
/// negotiated format survives every resize, so a pipeline built
/// against it stays valid and need not be rebuilt.
pub proof fn lemma_reconfigure_keeps_format(s: Session, size: PhysicalSize)
    ensures
        reconfigured(s, size).config.format == s.config.format,
        reconfigured(s, size).config.present_mode == s.config.present_mode,
        reconfigured(s, size).config.alpha_mode == s.config.alpha_mode,
{
}

/// Resizing away and back restores the session exactly: no drift
/// accumulates across reconfigurations.
pub proof fn lemma_resize_round_trip(s: Session, away: PhysicalSize, back: PhysicalSize)
    requires
        back.width > 0,
        back.height > 0,
        s.config.width == back.width,
        s.config.height == back.height,
    ensures
        reconfigured(reconfigured(s, away), back) == s,
{
}

} // verus!
