//! Surface formats, presentation parameters, and the format
//! negotiation policy.
//!
//! The session prefers the first display-capable format the surface
//! reports, honouring its sRGB variant only when the active backend
//! allows explicit sRGB view formats; the capability is queried once at
//! setup instead of branching on the backend by name.

use vstd::prelude::*;

verus! {

/// An 8-bit-per-channel presentable texture format, in its linear or
/// sRGB-encoded variant.
#[derive(Clone, Copy, Debug, PartialEq, Eq, Structural)]
pub enum TextureFormat {
    Bgra8Unorm,
    Bgra8UnormSrgb,
    Rgba8Unorm,
    Rgba8UnormSrgb,
}

/// The format with an sRGB suffix added, if the format has an sRGB
/// variant; sRGB formats are left as they are.
pub open spec fn with_srgb(f: TextureFormat) -> TextureFormat {
    match f {
        TextureFormat::Bgra8Unorm => TextureFormat::Bgra8UnormSrgb,
        TextureFormat::Rgba8Unorm => TextureFormat::Rgba8UnormSrgb,
        _ => f,
    }
}

/// The format with its sRGB suffix removed; linear formats are left as
/// they are.
pub open spec fn without_srgb(f: TextureFormat) -> TextureFormat {
    match f {
        TextureFormat::Bgra8UnormSrgb => TextureFormat::Bgra8Unorm,
        TextureFormat::Rgba8UnormSrgb => TextureFormat::Rgba8Unorm,
        _ => f,
    }
}

impl TextureFormat {
    /// True on the sRGB-encoded variants.
    pub open spec fn is_srgb_spec(self) -> bool {
        self == TextureFormat::Bgra8UnormSrgb || self == TextureFormat::Rgba8UnormSrgb
    }

    /// True on the sRGB-encoded variants.
    pub fn is_srgb(self) -> (r: bool)
        ensures
            r == self.is_srgb_spec(),
    {
        match self {
            TextureFormat::Bgra8UnormSrgb => true,
            TextureFormat::Rgba8UnormSrgb => true,
            _ => false,
        }
    }

    /// This format's sRGB-encoded variant.
    pub fn add_srgb_suffix(self) -> (r: TextureFormat)
        ensures
            r == with_srgb(self),
            r.is_srgb_spec(),
    {
        match self {
            TextureFormat::Bgra8Unorm => TextureFormat::Bgra8UnormSrgb,
            TextureFormat::Rgba8Unorm => TextureFormat::Rgba8UnormSrgb,
            other => other,
        }
    }

    /// This format's linear variant.
    pub fn remove_srgb_suffix(self) -> (r: TextureFormat)
        ensures
            r == without_srgb(self),
            !r.is_srgb_spec(),
    {
        match self {
            TextureFormat::Bgra8UnormSrgb => TextureFormat::Bgra8Unorm,
            TextureFormat::Rgba8UnormSrgb => TextureFormat::Rgba8Unorm,
            other => other,
        }
    }
}

/// How acquired frames are queued for display. The session always
/// configures vertical sync.
#[derive(Clone, Copy, Debug, PartialEq, Eq, Structural)]
pub enum PresentMode {
    /// Vertical sync: frames wait for the display refresh.
    Fifo,
    /// Present immediately, tearing allowed.
    Immediate,
    /// Triple-buffered low-latency presentation.
    Mailbox,
}

/// How the surface's alpha channel is composited with what lies behind
/// the window or canvas.
#[derive(Clone, Copy, Debug, PartialEq, Eq, Structural)]
pub enum AlphaMode {
    Auto,
    Opaque,
    PreMultiplied,
    PostMultiplied,
    Inherit,
}

/// The graphics backend a selected adapter drives.
#[derive(Clone, Copy, Debug, PartialEq, Eq, Structural)]
pub enum Backend {
    Vulkan,
    Metal,
    Dx12,
    Gl,
    BrowserWebGpu,
}

/// The surface format the session settles on: the first
/// display-capable format the surface reports, demoted to its linear
/// variant when the backend rejects explicit sRGB view formats.
pub open spec fn negotiated_format(formats: Seq<TextureFormat>, srgb_views: bool) -> TextureFormat
    recommends
        formats.len() > 0,
{
    if srgb_views {
        formats[0]
    } else {
        without_srgb(formats[0])
    }
}

/// Pick the surface format from the formats the surface reports, in
/// the surface's own preference order.
pub fn choose_format(formats: &Vec<TextureFormat>, srgb_views: bool) -> (r: TextureFormat)
    requires
        formats@.len() > 0,
    ensures
        r == negotiated_format(formats@, srgb_views),
{
    let first = formats[0];
    if srgb_views {
        first
    } else {
        first.remove_srgb_suffix()
    }
}

/// The view formats registered with the surface configuration: both
/// encodings of the chosen format where sRGB views are allowed, and
/// none at all where the backend refuses them.
pub open spec fn negotiated_view_formats(
    format: TextureFormat,
    srgb_views: bool,
) -> Seq<TextureFormat> {
    if srgb_views {
        seq![with_srgb(format), without_srgb(format)]
    } else {
        Seq::empty()
    }
}

/// Build the view-format list for a chosen surface format.
pub fn choose_view_formats(format: TextureFormat, srgb_views: bool) -> (r: Vec<TextureFormat>)
    ensures
        r@ == negotiated_view_formats(format, srgb_views),
{
    let mut out: Vec<TextureFormat> = Vec::new();
    if srgb_views {
        out.push(format.add_srgb_suffix());
        out.push(format.remove_srgb_suffix());
        assert(out@ =~= negotiated_view_formats(format, srgb_views));
    } else {
        assert(out@ =~= negotiated_view_formats(format, srgb_views));
    }
    out
}

} // verus!
