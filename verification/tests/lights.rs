use bevy_luna::realtime::lights::{
    apply_supported_light_render_mode, effective_light_value, raytrace_light_value,
    restore_supported_light_for_clustering, sync_supported_light_baseline,
};
use bevy_luna::{ManagedLight, RaytraceMode};

fn frame(light: &mut ManagedLight<f32>, mode: RaytraceMode) -> f32 {
    sync_supported_light_baseline(light);
    restore_supported_light_for_clustering(light, mode);
    let clustered = light.value;
    apply_supported_light_render_mode(light, mode, 0.0);
    clustered
}

#[test]
fn switching_modes_restores_authored_light() {
    let mut light = ManagedLight { value: 10_000.0f32, shadows_enabled: true, baseline: None, override_value: None };
    let clustered = frame(&mut light, RaytraceMode::RaytracedShadows);
    assert_eq!(clustered, 10_000.0);
    assert_eq!(light.value, 0.0);
    assert!(!light.shadows_enabled);
    assert_eq!(light.baseline, Some(10_000.0));
    assert_eq!(raytrace_light_value(&light), 10_000.0);

    let clustered = frame(&mut light, RaytraceMode::RaytracedShadows);
    assert_eq!(clustered, 10_000.0);
    assert_eq!(light.baseline, Some(10_000.0));

    frame(&mut light, RaytraceMode::Bevy);
    assert_eq!(light.value, 10_000.0);
    assert!(light.shadows_enabled);

    frame(&mut light, RaytraceMode::RaytracedShadows);
    assert_eq!(light.value, 0.0);
    frame(&mut light, RaytraceMode::Bevy);
    assert_eq!(light.value, 10_000.0);
    assert!(light.shadows_enabled);
}

#[test]
fn override_pins_both_modes() {
    let mut light = ManagedLight { value: 800.0f32, shadows_enabled: false, baseline: None, override_value: Some(200.0) };
    let clustered = frame(&mut light, RaytraceMode::RaytracedShadows);
    assert_eq!(clustered, 200.0);
    assert_eq!(raytrace_light_value(&light), 200.0);
    assert_eq!(light.baseline, Some(800.0));
    frame(&mut light, RaytraceMode::Bevy);
    assert_eq!(light.value, 200.0);
    assert!(light.shadows_enabled);
}

#[test]
fn bevy_mode_first_keeps_light_and_captures_it() {
    let mut light = ManagedLight { value: 3.5f32, shadows_enabled: false, baseline: None, override_value: None };
    let clustered = frame(&mut light, RaytraceMode::Bevy);
    assert_eq!(clustered, 3.5);
    assert_eq!(light.value, 3.5);
    assert!(light.shadows_enabled);
    assert_eq!(light.baseline, Some(3.5));
}

#[test]
fn lights_without_baseline_are_left_alone() {
    let mut light = ManagedLight { value: 7.0f32, shadows_enabled: true, baseline: None, override_value: Some(1.0) };
    restore_supported_light_for_clustering(&mut light, RaytraceMode::RaytracedShadows);
    apply_supported_light_render_mode(&mut light, RaytraceMode::RaytracedShadows, 0.0);
    assert_eq!(light.value, 7.0);
    assert!(light.shadows_enabled);
    assert_eq!(raytrace_light_value(&light), 1.0);
    let plain = ManagedLight { value: 7.0f32, shadows_enabled: true, baseline: None, override_value: None };
    assert_eq!(raytrace_light_value(&plain), 7.0);
}

#[test]
fn effective_value_prefers_override() {
    assert_eq!(effective_light_value(4.0f32, None), 4.0);
    assert_eq!(effective_light_value(4.0f32, Some(9.0)), 9.0);
}
