//! Logical and physical pixel sizes, and the one place where a logical
//! size is converted to backing-store pixels.
//!
//! The conversion `physical = round(logical * scale)` happens exactly
//! once, at the session boundary; everything past that boundary speaks
//! physical pixels only. The scale factor is carried in thousandths so
//! that the rounding is exact integer arithmetic.

use vstd::prelude::*;

verus! {

/// A size in logical (CSS-like) pixels, as reported by the window
/// system before display scaling is applied.
#[derive(Clone, Copy, Debug, PartialEq, Eq, Structural)]
pub struct LogicalSize {
    pub width: u32,
    pub height: u32,
}

/// A size in physical (backing-store) pixels, the unit every surface
/// configuration is expressed in.
#[derive(Clone, Copy, Debug, PartialEq, Eq, Structural)]
pub struct PhysicalSize {
    pub width: u32,
    pub height: u32,
}

/// A display scale factor in thousandths: `permille == 1250` stands
/// for a scale of 1.25. A factor of zero would collapse every window
/// to nothing, so well-formed factors are positive.
#[derive(Clone, Copy, Debug, PartialEq, Eq, Structural)]
pub struct ScaleFactor {
    pub permille: u32,
}

impl ScaleFactor {
    /// A usable scale factor is positive.
    pub open spec fn wf(self) -> bool {
        self.permille >= 1
    }

    /// The identity scale (1.0): logical and physical pixels coincide.
    pub fn identity() -> (r: ScaleFactor)
        ensures
            r.wf(),
            r.permille == 1000,
    {
        ScaleFactor { permille: 1000 }
    }
}

/// Round-half-up scaling of one extent: `round(extent * permille / 1000)`
/// as exact integer arithmetic.
pub open spec fn scaled_extent(extent: nat, permille: nat) -> nat {
    (extent * permille + 500) / 1000
}

/// The scaled extent clamped into the range a `u32` extent can hold.
pub open spec fn physical_extent(extent: nat, permille: nat) -> nat {
    if scaled_extent(extent, permille) > u32::MAX {
        u32::MAX as nat
    } else {
        scaled_extent(extent, permille)
    }
}

/// The physical size a logical size maps to under a scale factor.
pub open spec fn physical_of(logical: LogicalSize, scale: ScaleFactor) -> PhysicalSize {
    PhysicalSize {
        width: physical_extent(logical.width as nat, scale.permille as nat) as u32,
        height: physical_extent(logical.height as nat, scale.permille as nat) as u32,
    }
}

/// Convert one extent from logical to physical pixels, rounding half
/// up and saturating at the largest representable extent.
pub fn scale_extent(extent: u32, scale: ScaleFactor) -> (r: u32)
    ensures
        r as nat == physical_extent(extent as nat, scale.permille as nat),
{
    proof {
        assert((extent as nat) * (scale.permille as nat) <= 0xffff_ffffnat * 0xffff_ffffnat)
            by (nonlinear_arith)
            requires
                extent as nat <= 0xffff_ffffnat,
                scale.permille as nat <= 0xffff_ffffnat,
        ;
    }
    let wide: u64 = (extent as u64) * (scale.permille as u64);
    let rounded: u64 = (wide + 500) / 1000;
    if rounded > u32::MAX as u64 {
        u32::MAX
    } else {
        rounded as u32
    }
}

/// Convert a logical size to physical pixels. This is the only
/// conversion in the crate: callers past the session boundary never see
/// logical pixels again.
pub fn to_physical(logical: LogicalSize, scale: ScaleFactor) -> (r: PhysicalSize)
    ensures
        r == physical_of(logical, scale),
{
    PhysicalSize {
        width: scale_extent(logical.width, scale),
        height: scale_extent(logical.height, scale),
    }
}

/// The conversion is a function of the logical size and scale factor
/// alone: converting the same size under the same factor twice yields
/// the same physical size, so repeated identical resize reports cannot
/// drift.
pub proof fn lemma_conversion_deterministic(
    logical: LogicalSize,
    scale: ScaleFactor,
    first: PhysicalSize,
    second: PhysicalSize,
)
    requires
        first == physical_of(logical, scale),
        second == physical_of(logical, scale),
    ensures
        first == second,
{
}

} // verus!
