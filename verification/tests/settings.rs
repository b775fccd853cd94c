use bevy_luna::realtime::{
    managed_view_update, raytrace_view_msaa_supported, ManagedViewUpdate,
};
use bevy_luna::{
    DisableRaytraceLight, DisableRaytraceView, DisableRaytracingMesh, RaytraceCapabilities,
    RaytraceDebugMode, RaytraceMode, RaytraceQuality, RaytraceSettings, RaytraceView,
};

#[test]
fn settings_default_to_raytraced_mode() {
    let settings = RaytraceSettings::default();
    assert_eq!(settings.mode, RaytraceMode::RaytracedShadows);
    assert_eq!(settings.quality, RaytraceQuality::Balanced);
}

#[test]
fn mode_default_matches_settings_default() {
    assert_eq!(RaytraceMode::default(), RaytraceMode::RaytracedShadows);
}

#[test]
fn capabilities_default_to_disabled() {
    assert!(!RaytraceCapabilities::default().hardware_ray_query);
}

#[test]
fn view_and_debug_defaults() {
    let view = RaytraceView::default();
    assert_eq!(view.quality, RaytraceQuality::Balanced);
    assert_eq!(view.debug, RaytraceDebugMode::Off);
    assert_eq!(RaytraceSettings::default().debug, RaytraceDebugMode::Off);
    assert_eq!(RaytraceQuality::default(), RaytraceQuality::Balanced);
    assert_eq!(RaytraceDebugMode::default(), RaytraceDebugMode::Off);
    assert_eq!(DisableRaytraceView::default(), DisableRaytraceView);
    assert_eq!(DisableRaytraceLight::default(), DisableRaytraceLight);
    assert_eq!(DisableRaytracingMesh::default(), DisableRaytracingMesh);
}

#[test]
fn managed_views_follow_settings_and_capabilities() {
    let settings = RaytraceSettings {
        mode: RaytraceMode::RaytracedShadows,
        quality: RaytraceQuality::Quality,
        debug: RaytraceDebugMode::ShadowMask,
    };
    let supported = RaytraceCapabilities { hardware_ray_query: true };
    let unsupported = RaytraceCapabilities { hardware_ray_query: false };
    let expected = RaytraceView { quality: RaytraceQuality::Quality, debug: RaytraceDebugMode::ShadowMask };

    assert_eq!(managed_view_update(&settings, &supported, false), ManagedViewUpdate::Insert(expected));
    assert_eq!(managed_view_update(&settings, &supported, true), ManagedViewUpdate::Insert(expected));
    assert_eq!(managed_view_update(&settings, &unsupported, true), ManagedViewUpdate::Remove);
    assert_eq!(managed_view_update(&settings, &unsupported, false), ManagedViewUpdate::Keep);

    let bevy_mode = RaytraceSettings { mode: RaytraceMode::Bevy, ..settings };
    assert_eq!(managed_view_update(&bevy_mode, &supported, true), ManagedViewUpdate::Remove);
    assert_eq!(managed_view_update(&bevy_mode, &supported, false), ManagedViewUpdate::Keep);
}

#[test]
fn raytrace_views_need_msaa_off() {
    assert!(raytrace_view_msaa_supported(1));
    assert!(!raytrace_view_msaa_supported(4));
    assert!(!raytrace_view_msaa_supported(8));
}
