use super::{RaytraceDebugMode, RaytraceQuality};
use vstd::prelude::*;

verus! {

/// The side in pixels of the square tile that one trace workgroup covers.
pub open spec fn tile_size(quality: RaytraceQuality) -> int {
    match quality {
        RaytraceQuality::Performance => 16,
        RaytraceQuality::Balanced | RaytraceQuality::Quality => 8,
    }
}

/// The least number of `divisor`-wide tiles that cover `extent` pixels.
pub open spec fn tiles_to_cover(extent: int, divisor: int) -> int {
    (extent + divisor - 1) / divisor
}

/// Workgroup counts of the trace pass for an output of `width x height`
/// pixels: enough tiles of the quality's tile size to cover it in each axis.
pub fn dispatch_size(width: u32, height: u32, quality: RaytraceQuality) -> (groups: (u32, u32))
    ensures
        groups.0 == tiles_to_cover(width as int, tile_size(quality)),
        groups.1 == tiles_to_cover(height as int, tile_size(quality)),
{
    let divisor: u32 = match quality {
        RaytraceQuality::Performance => 16,
        RaytraceQuality::Balanced | RaytraceQuality::Quality => 8,
    };
    let group_x: u32 = width / divisor + if width % divisor != 0 { 1 } else { 0 };
    let group_y: u32 = height / divisor + if height % divisor != 0 { 1 } else { 0 };
    proof {
        assert(group_x == tiles_to_cover(width as int, divisor as int)) by (nonlinear_arith)
            requires
                divisor == 8 || divisor == 16,
                group_x == width / divisor + if width % divisor != 0 { 1int } else { 0int },
        ;
        assert(group_y == tiles_to_cover(height as int, divisor as int)) by (nonlinear_arith)
            requires
                divisor == 8 || divisor == 16,
                group_y == height / divisor + if height % divisor != 0 { 1int } else { 0int },
        ;
    }
    (group_x, group_y)
}

/// The tiles of a dispatch cover the whole output, and one tile fewer in either
/// axis would not.
pub proof fn lemma_dispatch_covers_output(extent: int, quality: RaytraceQuality)
    requires
        extent >= 0,
    ensures
        tiles_to_cover(extent, tile_size(quality)) * tile_size(quality) >= extent,
        (tiles_to_cover(extent, tile_size(quality)) - 1) * tile_size(quality) < extent || extent
            == 0,
{
    let d = tile_size(quality);
    let t = tiles_to_cover(extent, d);
    assert(t * d >= extent && ((t - 1) * d < extent || extent == 0)) by (nonlinear_arith)
        requires
            d == 8 || d == 16,
            extent >= 0,
            t == (extent + d - 1) / d,
    ;
}

/// The composite pass that finishes a raytraced view.
#[derive(Clone, Copy, Debug, PartialEq, Eq, Structural)]
pub enum CompositePass {
    /// Shade the scene with the traced shadows.
    Shaded,
    /// Show the direct-lighting debug output.
    DirectLightingDebug,
    /// Show the binary shadow mask of the first active light.
    ShadowMask,
}

/// The composite pass that a view's debug mode selects.
pub fn composite_pass_for(debug: RaytraceDebugMode) -> (pass: CompositePass)
    ensures
        pass == match debug {
            RaytraceDebugMode::DirectLighting => CompositePass::DirectLightingDebug,
            RaytraceDebugMode::ShadowMask => CompositePass::ShadowMask,
            RaytraceDebugMode::Off => CompositePass::Shaded,
        },
{
    match debug {
        RaytraceDebugMode::DirectLighting => CompositePass::DirectLightingDebug,
        RaytraceDebugMode::ShadowMask => CompositePass::ShadowMask,
        _ => CompositePass::Shaded,
    }
}

/// A traced output can be drawn only when it has pixels in both axes.
pub fn output_extent_drawable(width: u32, height: u32) -> (drawable: bool)
    ensures
        drawable == (width != 0 && height != 0),
{
    width != 0 && height != 0
}

} // verus!
