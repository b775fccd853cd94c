use bevy_luna::realtime::RaytraceCapabilities;
use bevy_luna::RaytracePlugins;
use wgpu_types::Features;

fn solari_features() -> Features {
    Features::EXPERIMENTAL_RAY_QUERY
        | Features::BUFFER_BINDING_ARRAY
        | Features::TEXTURE_BINDING_ARRAY
        | Features::SAMPLED_TEXTURE_AND_STORAGE_BUFFER_ARRAY_NON_UNIFORM_INDEXING
        | Features::PARTIALLY_BOUND_BINDING_ARRAY
}

#[test]
fn capabilities_need_every_required_feature() {
    let required = (0b1011_0000_0000u64, 1u64);
    assert!(RaytraceCapabilities::from_feature_words(required, required).hardware_ray_query);
    assert!(
        RaytraceCapabilities::from_feature_words((u64::MAX, u64::MAX), required).hardware_ray_query
    );
    assert!(
        !RaytraceCapabilities::from_feature_words((0b1011_0000_0000, 0), required).hardware_ray_query
    );
    assert!(
        !RaytraceCapabilities::from_feature_words((0b0011_0000_0000, 1), required).hardware_ray_query
    );
    assert!(RaytraceCapabilities::from_feature_words((5, 7), (0, 0)).hardware_ray_query);
}

#[test]
fn required_features_are_the_ray_query_set() {
    assert_eq!(RaytracePlugins::required_wgpu_features(), solari_features());
    let bits = solari_features().bits();
    assert_eq!(RaytracePlugins::required_feature_words(), (bits.0[0], bits.0[1]));
    assert_eq!(RaytracePlugins::required_feature_words(), (0x1_0000_2B00, 0));
}

#[test]
fn adapter_capabilities_follow_required_features() {
    let required = solari_features();
    assert!(RaytraceCapabilities::for_adapter(&required).hardware_ray_query);
    assert!(RaytraceCapabilities::for_adapter(&Features::all()).hardware_ray_query);
    assert!(!RaytraceCapabilities::for_adapter(&Features::empty()).hardware_ray_query);
    let missing_ray_query = required.difference(Features::EXPERIMENTAL_RAY_QUERY);
    assert!(!RaytraceCapabilities::for_adapter(&missing_ray_query).hardware_ray_query);
    let extra = required | Features::SHADER_F64;
    assert!(RaytraceCapabilities::for_adapter(&extra).hardware_ray_query);
}

#[test]
fn required_features_round_trip_through_words() {
    let features = RaytracePlugins::required_wgpu_features();
    assert!(RaytraceCapabilities::for_adapter(&features).hardware_ray_query);
    assert_eq!(features.bits().0, [0x1_0000_2B00, 0]);
}
