use bevy_luna::realtime::node::{composite_pass_for, output_extent_drawable, CompositePass};
use bevy_luna::realtime::prepare::output_texture_to_create;
use bevy_luna::{dispatch_size, RaytraceDebugMode, RaytraceQuality};

#[test]
fn dispatch_covers_output_with_quality_tiles() {
    assert_eq!(dispatch_size(1920, 1080, RaytraceQuality::Balanced), (240, 135));
    assert_eq!(dispatch_size(1920, 1080, RaytraceQuality::Quality), (240, 135));
    assert_eq!(dispatch_size(1920, 1080, RaytraceQuality::Performance), (120, 68));
    assert_eq!(dispatch_size(1, 17, RaytraceQuality::Performance), (1, 2));
    assert_eq!(dispatch_size(0, 0, RaytraceQuality::Balanced), (0, 0));
    assert_eq!(dispatch_size(u32::MAX, 9, RaytraceQuality::Balanced), (536_870_912, 2));
}

#[test]
fn debug_mode_selects_composite_pass() {
    assert_eq!(composite_pass_for(RaytraceDebugMode::Off), CompositePass::Shaded);
    assert_eq!(composite_pass_for(RaytraceDebugMode::ShadowMask), CompositePass::ShadowMask);
    assert_eq!(composite_pass_for(RaytraceDebugMode::DirectLighting), CompositePass::DirectLightingDebug);
}

#[test]
fn output_texture_follows_viewport() {
    assert_eq!(output_texture_to_create(None, None), None);
    assert_eq!(output_texture_to_create(Some((0, 720)), None), None);
    assert_eq!(output_texture_to_create(Some((1280, 0)), Some((1280, 720, 1))), None);
    assert_eq!(output_texture_to_create(Some((1280, 720)), None), Some((1280, 720, 1)));
    assert_eq!(output_texture_to_create(Some((1280, 720)), Some((1280, 720, 1))), None);
    assert_eq!(output_texture_to_create(Some((1920, 1080)), Some((1280, 720, 1))), Some((1920, 1080, 1)));
    assert!(output_extent_drawable(1, 1));
    assert!(!output_extent_drawable(0, 5));
    assert!(!output_extent_drawable(5, 0));
}
