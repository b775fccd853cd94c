//! Real-time raytraced shadow replacement for Bevy, without temporal history.
//!
//! This crate holds the decisions of the raytraced shadow path: which views are
//! managed, which lights are traced and in what order, how authored light values
//! survive switching between Bevy shadows and raytraced shadows, and how the
//! raytracing proxy of a mesh is put together.

pub mod realtime;
pub mod scene;

pub use realtime::lights::ManagedLight;
pub use realtime::node::dispatch_size;
pub use realtime::selection::{push_directional_light, push_punctual_light, RaytraceLightSelection};
pub use realtime::shared::{MAX_DIRECTIONAL_LIGHTS, MAX_PUNCTUAL_LIGHTS};
pub use realtime::{
    DisableRaytraceLight, DisableRaytraceView, RaytraceCapabilities, RaytraceDebugMode,
    RaytraceMode, RaytraceQuality, RaytraceSettings, RaytraceView,
};
pub use scene::proxy::make_raytracing_proxy_mesh;
pub use scene::DisableRaytracingMesh;

use vstd::prelude::*;

verus! {

/// The wgpu feature set type (`wgpu_types::Features`, which Bevy's render
/// settings name `WgpuFeatures`), declared opaque.
#[verifier::external_type_specification]
#[verifier::external_body]
pub struct ExWgpuFeatures(wgpu_types::Features);

/// A wgpu feature set as an opaque value, built from its two flag words.
///
/// Calls `wgpu_types::Features::from_bits_retain`, which keeps every given bit,
/// so that `Features::bits` gives the same two words back in order.
#[verifier::external_body]
fn features_from_words(words: realtime::FeatureWords) -> (features: wgpu_types::Features)
    ensures
        realtime::spec_feature_words(features) == words,
{
    wgpu_types::Features::from_bits_retain(wgpu_types::FeatureBits([words.0, words.1]))
}

/// The flag words of the features that the hardware ray-query path needs:
/// `TEXTURE_BINDING_ARRAY` (bit 8), `BUFFER_BINDING_ARRAY` (bit 9),
/// `SAMPLED_TEXTURE_AND_STORAGE_BUFFER_ARRAY_NON_UNIFORM_INDEXING` (bit 11),
/// `PARTIALLY_BOUND_BINDING_ARRAY` (bit 13) and `EXPERIMENTAL_RAY_QUERY`
/// (bit 32), all in the first (native) word; the WebGPU word is empty. This is
/// the set that `bevy_solari::SolariPlugins::required_wgpu_features` returns.
pub open spec fn required_feature_words_spec() -> realtime::FeatureWords {
    (0x1_0000_2B00u64, 0u64)
}

/// The raytracing plugins, and the wgpu features that their hardware path needs.
pub struct RaytracePlugins;

impl RaytracePlugins {
    /// The flag words of the required wgpu features.
    pub fn required_feature_words() -> (words: realtime::FeatureWords)
        ensures
            words == required_feature_words_spec(),
    {
        let texture_binding_array: u64 = 1 << 8;
        let buffer_binding_array: u64 = 1 << 9;
        let non_uniform_indexing: u64 = 1 << 11;
        let partially_bound_binding_array: u64 = 1 << 13;
        let experimental_ray_query: u64 = 1 << 32;
        let native = texture_binding_array | buffer_binding_array | non_uniform_indexing
            | partially_bound_binding_array | experimental_ray_query;
        assert(native == 0x1_0000_2B00u64) by (bit_vector)
            requires
                texture_binding_array == 1u64 << 8,
                buffer_binding_array == 1u64 << 9,
                non_uniform_indexing == 1u64 << 11,
                partially_bound_binding_array == 1u64 << 13,
                experimental_ray_query == 1u64 << 32,
                native == texture_binding_array | buffer_binding_array | non_uniform_indexing
                    | partially_bound_binding_array | experimental_ray_query,
        ;
        (native, 0)
    }

    /// Required wgpu features for the current hardware ray-query backend.
    pub fn required_wgpu_features() -> (features: wgpu_types::Features)
        ensures
            realtime::spec_feature_words(features) == required_feature_words_spec(),
    {
        features_from_words(Self::required_feature_words())
    }
}

} // verus!
