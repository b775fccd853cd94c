//! Realtime-side logic: settings, managed views, light ownership and selection,
//! and the decisions of the render passes.

pub mod lights;
pub mod node;
pub mod prepare;
pub mod selection;
pub mod shared;

use vstd::prelude::*;

verus! {

/// Runtime rendering mode for managed views.
#[derive(Clone, Copy, Debug, PartialEq, Eq, Structural)]
pub enum RaytraceMode {
    /// Use the raytraced shadowing path.
    RaytracedShadows,
    /// Use Bevy's normal rasterized shadowing path.
    Bevy,
}

impl Default for RaytraceMode {
    fn default() -> (mode: Self)
        ensures
            mode == RaytraceMode::RaytracedShadows,
    {
        RaytraceMode::RaytracedShadows
    }
}

/// Simple quality presets for the real-time renderer.
#[derive(Clone, Copy, Debug, PartialEq, Eq, Structural)]
pub enum RaytraceQuality {
    /// Lowest-cost settings.
    Performance,
    /// Middle-ground settings intended for gameplay.
    Balanced,
    /// Highest-cost settings intended for screenshots or slow scenes.
    Quality,
}

impl Default for RaytraceQuality {
    fn default() -> (quality: Self)
        ensures
            quality == RaytraceQuality::Balanced,
    {
        RaytraceQuality::Balanced
    }
}

/// Debug visualizations for the lighting passes.
#[derive(Clone, Copy, Debug, PartialEq, Eq, Structural)]
pub enum RaytraceDebugMode {
    /// Final shaded output.
    Off,
    /// Visualize raw binary shadow visibility for the first active light.
    ShadowMask,
    /// Visualize direct-light results.
    DirectLighting,
}

impl Default for RaytraceDebugMode {
    fn default() -> (debug: Self)
        ensures
            debug == RaytraceDebugMode::Off,
    {
        RaytraceDebugMode::Off
    }
}

/// Runtime settings used to enable or disable the raytraced path.
#[derive(Clone, Copy, Debug, PartialEq, Eq, Structural)]
pub struct RaytraceSettings {
    /// Selects the active shadowing model for managed cameras.
    pub mode: RaytraceMode,
    /// Default quality preset used when a managed view is activated.
    pub quality: RaytraceQuality,
    /// Optional debug output mode.
    pub debug: RaytraceDebugMode,
}

impl Default for RaytraceSettings {
    fn default() -> (settings: Self)
        ensures
            settings.mode == RaytraceMode::RaytracedShadows,
            settings.quality == RaytraceQuality::Balanced,
            settings.debug == RaytraceDebugMode::Off,
    {
        RaytraceSettings {
            mode: RaytraceMode::RaytracedShadows,
            quality: RaytraceQuality::Balanced,
            debug: RaytraceDebugMode::Off,
        }
    }
}

/// Opts a camera out of automatic raytraced view management.
#[derive(Clone, Copy, Debug, PartialEq, Eq, Structural)]
pub struct DisableRaytraceView;

impl Default for DisableRaytraceView {
    fn default() -> (marker: Self)
        ensures
            marker == DisableRaytraceView,
    {
        DisableRaytraceView
    }
}

/// Opts a supported light out of automatic raytraced shadow ownership.
#[derive(Clone, Copy, Debug, PartialEq, Eq, Structural)]
pub struct DisableRaytraceLight;

impl Default for DisableRaytraceLight {
    fn default() -> (marker: Self)
        ensures
            marker == DisableRaytraceLight,
    {
        DisableRaytraceLight
    }
}

/// Per-camera raytracing configuration.
#[derive(Clone, Copy, Debug, PartialEq, Eq, Structural)]
pub struct RaytraceView {
    /// Per-camera quality preset.
    pub quality: RaytraceQuality,
    /// Debug visualization mode.
    pub debug: RaytraceDebugMode,
}

impl Default for RaytraceView {
    fn default() -> (view: Self)
        ensures
            view.quality == RaytraceQuality::Balanced,
            view.debug == RaytraceDebugMode::Off,
    {
        RaytraceView { quality: RaytraceQuality::Balanced, debug: RaytraceDebugMode::Off }
    }
}

/// Hardware capability summary used to decide whether the plugin can activate tracing.
#[derive(Clone, Copy, Debug, PartialEq, Eq, Structural)]
pub struct RaytraceCapabilities {
    /// Whether the active adapter supports the hardware ray-query path.
    pub hardware_ray_query: bool,
}

impl Default for RaytraceCapabilities {
    fn default() -> (capabilities: Self)
        ensures
            !capabilities.hardware_ray_query,
    {
        RaytraceCapabilities { hardware_ray_query: false }
    }
}

/// A wgpu feature set as its two flag words (`wgpu::Features` is an array of
/// two 64-bit flag words).
pub type FeatureWords = (u64, u64);

/// Every flag set in `required` is also set in `available`, word by word.
pub open spec fn words_contain(available: FeatureWords, required: FeatureWords) -> bool {
    &&& available.0 & required.0 == required.0
    &&& available.1 & required.1 == required.1
}

/// Bit `i` of a flag word is set.
pub open spec fn bit_set(word: u64, i: u64) -> bool {
    (word >> i) & 1u64 == 1u64
}

/// Every flag of `required` is a flag of `available`, bit by bit.
pub open spec fn flags_included(available: u64, required: u64) -> bool {
    forall|i: u64| i < 64 ==> (#[trigger] bit_set(required, i) ==> bit_set(available, i))
}

proof fn lemma_word_contains(available: u64, required: u64)
    ensures
        (available & required == required) <==> flags_included(available, required),
{
    if available & required == required {
        assert forall|i: u64| i < 64 implies (#[trigger] bit_set(required, i) ==> bit_set(
            available,
            i,
        )) by {
            assert(((required >> i) & 1u64 == 1u64) ==> ((available >> i) & 1u64 == 1u64))
                by (bit_vector)
                requires
                    available & required == required,
                    i < 64,
            ;
        }
    }
    if flags_included(available, required) {
        assert(bit_set(required, 0u64) ==> bit_set(available, 0u64));
        assert(bit_set(required, 1u64) ==> bit_set(available, 1u64));
        assert(bit_set(required, 2u64) ==> bit_set(available, 2u64));
        assert(bit_set(required, 3u64) ==> bit_set(available, 3u64));
        assert(bit_set(required, 4u64) ==> bit_set(available, 4u64));
        assert(bit_set(required, 5u64) ==> bit_set(available, 5u64));
        assert(bit_set(required, 6u64) ==> bit_set(available, 6u64));
        assert(bit_set(required, 7u64) ==> bit_set(available, 7u64));
        assert(bit_set(required, 8u64) ==> bit_set(available, 8u64));
        assert(bit_set(required, 9u64) ==> bit_set(available, 9u64));
        assert(bit_set(required, 10u64) ==> bit_set(available, 10u64));
        assert(bit_set(required, 11u64) ==> bit_set(available, 11u64));
        assert(bit_set(required, 12u64) ==> bit_set(available, 12u64));
        assert(bit_set(required, 13u64) ==> bit_set(available, 13u64));
        assert(bit_set(required, 14u64) ==> bit_set(available, 14u64));
        assert(bit_set(required, 15u64) ==> bit_set(available, 15u64));
        assert(bit_set(required, 16u64) ==> bit_set(available, 16u64));
        assert(bit_set(required, 17u64) ==> bit_set(available, 17u64));
        assert(bit_set(required, 18u64) ==> bit_set(available, 18u64));
        assert(bit_set(required, 19u64) ==> bit_set(available, 19u64));
        assert(bit_set(required, 20u64) ==> bit_set(available, 20u64));
        assert(bit_set(required, 21u64) ==> bit_set(available, 21u64));
        assert(bit_set(required, 22u64) ==> bit_set(available, 22u64));
        assert(bit_set(required, 23u64) ==> bit_set(available, 23u64));
        assert(bit_set(required, 24u64) ==> bit_set(available, 24u64));
        assert(bit_set(required, 25u64) ==> bit_set(available, 25u64));
        assert(bit_set(required, 26u64) ==> bit_set(available, 26u64));
        assert(bit_set(required, 27u64) ==> bit_set(available, 27u64));
        assert(bit_set(required, 28u64) ==> bit_set(available, 28u64));
        assert(bit_set(required, 29u64) ==> bit_set(available, 29u64));
        assert(bit_set(required, 30u64) ==> bit_set(available, 30u64));
        assert(bit_set(required, 31u64) ==> bit_set(available, 31u64));
        assert(bit_set(required, 32u64) ==> bit_set(available, 32u64));
        assert(bit_set(required, 33u64) ==> bit_set(available, 33u64));
        assert(bit_set(required, 34u64) ==> bit_set(available, 34u64));
        assert(bit_set(required, 35u64) ==> bit_set(available, 35u64));
        assert(bit_set(required, 36u64) ==> bit_set(available, 36u64));
        assert(bit_set(required, 37u64) ==> bit_set(available, 37u64));
        assert(bit_set(required, 38u64) ==> bit_set(available, 38u64));
        assert(bit_set(required, 39u64) ==> bit_set(available, 39u64));
        assert(bit_set(required, 40u64) ==> bit_set(available, 40u64));
        assert(bit_set(required, 41u64) ==> bit_set(available, 41u64));
        assert(bit_set(required, 42u64) ==> bit_set(available, 42u64));
        assert(bit_set(required, 43u64) ==> bit_set(available, 43u64));
        assert(bit_set(required, 44u64) ==> bit_set(available, 44u64));
        assert(bit_set(required, 45u64) ==> bit_set(available, 45u64));
        assert(bit_set(required, 46u64) ==> bit_set(available, 46u64));
        assert(bit_set(required, 47u64) ==> bit_set(available, 47u64));
        assert(bit_set(required, 48u64) ==> bit_set(available, 48u64));
        assert(bit_set(required, 49u64) ==> bit_set(available, 49u64));
        assert(bit_set(required, 50u64) ==> bit_set(available, 50u64));
        assert(bit_set(required, 51u64) ==> bit_set(available, 51u64));
        assert(bit_set(required, 52u64) ==> bit_set(available, 52u64));
        assert(bit_set(required, 53u64) ==> bit_set(available, 53u64));
        assert(bit_set(required, 54u64) ==> bit_set(available, 54u64));
        assert(bit_set(required, 55u64) ==> bit_set(available, 55u64));
        assert(bit_set(required, 56u64) ==> bit_set(available, 56u64));
        assert(bit_set(required, 57u64) ==> bit_set(available, 57u64));
        assert(bit_set(required, 58u64) ==> bit_set(available, 58u64));
        assert(bit_set(required, 59u64) ==> bit_set(available, 59u64));
        assert(bit_set(required, 60u64) ==> bit_set(available, 60u64));
        assert(bit_set(required, 61u64) ==> bit_set(available, 61u64));
        assert(bit_set(required, 62u64) ==> bit_set(available, 62u64));
        assert(bit_set(required, 63u64) ==> bit_set(available, 63u64));
        assert(available & required == required) by (bit_vector)
            requires
                bit_set(required, 0u64) ==> bit_set(available, 0u64),
                bit_set(required, 1u64) ==> bit_set(available, 1u64),
                bit_set(required, 2u64) ==> bit_set(available, 2u64),
                bit_set(required, 3u64) ==> bit_set(available, 3u64),
                bit_set(required, 4u64) ==> bit_set(available, 4u64),
                bit_set(required, 5u64) ==> bit_set(available, 5u64),
                bit_set(required, 6u64) ==> bit_set(available, 6u64),
                bit_set(required, 7u64) ==> bit_set(available, 7u64),
                bit_set(required, 8u64) ==> bit_set(available, 8u64),
                bit_set(required, 9u64) ==> bit_set(available, 9u64),
                bit_set(required, 10u64) ==> bit_set(available, 10u64),
                bit_set(required, 11u64) ==> bit_set(available, 11u64),
                bit_set(required, 12u64) ==> bit_set(available, 12u64),
                bit_set(required, 13u64) ==> bit_set(available, 13u64),
                bit_set(required, 14u64) ==> bit_set(available, 14u64),
                bit_set(required, 15u64) ==> bit_set(available, 15u64),
                bit_set(required, 16u64) ==> bit_set(available, 16u64),
                bit_set(required, 17u64) ==> bit_set(available, 17u64),
                bit_set(required, 18u64) ==> bit_set(available, 18u64),
                bit_set(required, 19u64) ==> bit_set(available, 19u64),
                bit_set(required, 20u64) ==> bit_set(available, 20u64),
                bit_set(required, 21u64) ==> bit_set(available, 21u64),
                bit_set(required, 22u64) ==> bit_set(available, 22u64),
                bit_set(required, 23u64) ==> bit_set(available, 23u64),
                bit_set(required, 24u64) ==> bit_set(available, 24u64),
                bit_set(required, 25u64) ==> bit_set(available, 25u64),
                bit_set(required, 26u64) ==> bit_set(available, 26u64),
                bit_set(required, 27u64) ==> bit_set(available, 27u64),
                bit_set(required, 28u64) ==> bit_set(available, 28u64),
                bit_set(required, 29u64) ==> bit_set(available, 29u64),
                bit_set(required, 30u64) ==> bit_set(available, 30u64),
                bit_set(required, 31u64) ==> bit_set(available, 31u64),
                bit_set(required, 32u64) ==> bit_set(available, 32u64),
                bit_set(required, 33u64) ==> bit_set(available, 33u64),
                bit_set(required, 34u64) ==> bit_set(available, 34u64),
                bit_set(required, 35u64) ==> bit_set(available, 35u64),
                bit_set(required, 36u64) ==> bit_set(available, 36u64),
                bit_set(required, 37u64) ==> bit_set(available, 37u64),
                bit_set(required, 38u64) ==> bit_set(available, 38u64),
                bit_set(required, 39u64) ==> bit_set(available, 39u64),
                bit_set(required, 40u64) ==> bit_set(available, 40u64),
                bit_set(required, 41u64) ==> bit_set(available, 41u64),
                bit_set(required, 42u64) ==> bit_set(available, 42u64),
                bit_set(required, 43u64) ==> bit_set(available, 43u64),
                bit_set(required, 44u64) ==> bit_set(available, 44u64),
                bit_set(required, 45u64) ==> bit_set(available, 45u64),
                bit_set(required, 46u64) ==> bit_set(available, 46u64),
                bit_set(required, 47u64) ==> bit_set(available, 47u64),
                bit_set(required, 48u64) ==> bit_set(available, 48u64),
                bit_set(required, 49u64) ==> bit_set(available, 49u64),
                bit_set(required, 50u64) ==> bit_set(available, 50u64),
                bit_set(required, 51u64) ==> bit_set(available, 51u64),
                bit_set(required, 52u64) ==> bit_set(available, 52u64),
                bit_set(required, 53u64) ==> bit_set(available, 53u64),
                bit_set(required, 54u64) ==> bit_set(available, 54u64),
                bit_set(required, 55u64) ==> bit_set(available, 55u64),
                bit_set(required, 56u64) ==> bit_set(available, 56u64),
                bit_set(required, 57u64) ==> bit_set(available, 57u64),
                bit_set(required, 58u64) ==> bit_set(available, 58u64),
                bit_set(required, 59u64) ==> bit_set(available, 59u64),
                bit_set(required, 60u64) ==> bit_set(available, 60u64),
                bit_set(required, 61u64) ==> bit_set(available, 61u64),
                bit_set(required, 62u64) ==> bit_set(available, 62u64),
                bit_set(required, 63u64) ==> bit_set(available, 63u64),
        ;
    }
}

/// Feature containment is flag-set inclusion: an adapter has the required
/// features exactly when every flag set in either required word is also set in
/// the adapter's word of the same half. Comparing the words as numbers is not
/// enough: a higher flag does not stand in for a missing lower one.
pub proof fn lemma_words_contain_is_flag_inclusion(available: FeatureWords, required: FeatureWords)
    ensures
        words_contain(available, required) <==> (flags_included(available.0, required.0)
            && flags_included(available.1, required.1)),
        words_contain(available, required) ==> forall|i: u64|
            i < 64 && #[trigger] bit_set(required.0, i) ==> bit_set(available.0, i),
        !bit_set(available.0, 32) && bit_set(required.0, 32) ==> !words_contain(
            available,
            required,
        ),
{
    lemma_word_contains(available.0, required.0);
    lemma_word_contains(available.1, required.1);
}

/// The two flag words of a wgpu feature set, as `wgpu_types::Features::bits`
/// gives them: the native word, then the WebGPU word.
pub uninterp spec fn spec_feature_words(features: wgpu_types::Features) -> FeatureWords;

/// The two flag words of a wgpu feature set.
///
/// Calls `wgpu_types::Features::bits`, whose result holds the flags of the two
/// `Features` halves in order and depends on the feature set alone; the words
/// are named [`spec_feature_words`].
#[verifier::external_body]
fn feature_words(features: &wgpu_types::Features) -> (words: FeatureWords)
    ensures
        words == spec_feature_words(*features),
{
    let bits = features.bits();
    (bits.0[0], bits.0[1])
}

impl RaytraceCapabilities {
    /// The capabilities of an adapter whose features are `adapter` when the
    /// raytraced path needs `required`: hardware ray query is available exactly
    /// when the adapter has every required feature.
    pub fn from_feature_words(adapter: FeatureWords, required: FeatureWords) -> (capabilities:
        Self)
        ensures
            capabilities.hardware_ray_query == words_contain(adapter, required),
            capabilities.hardware_ray_query <==> (flags_included(adapter.0, required.0)
                && flags_included(adapter.1, required.1)),
    {
        proof {
            lemma_words_contain_is_flag_inclusion(adapter, required);
        }
        let first_ok = adapter.0 & required.0 == required.0;
        let second_ok = adapter.1 & required.1 == required.1;
        RaytraceCapabilities { hardware_ray_query: first_ok && second_ok }
    }

    /// The capabilities of an adapter with the given features: hardware ray
    /// query is available exactly when the adapter has every feature of
    /// [`crate::RaytracePlugins::required_feature_words`].
    pub fn for_adapter(adapter_features: &wgpu_types::Features) -> (capabilities:
        Self)
        ensures
            capabilities.hardware_ray_query == words_contain(
                spec_feature_words(*adapter_features),
                crate::required_feature_words_spec(),
            ),
    {
        let required = crate::RaytracePlugins::required_feature_words();
        let adapter = feature_words(adapter_features);
        Self::from_feature_words(adapter, required)
    }
}

/// Raytracing is active for managed views when the settings select the
/// raytraced path and the adapter supports hardware ray queries.
pub open spec fn tracing_active(settings: RaytraceSettings, capabilities: RaytraceCapabilities) -> bool {
    settings.mode == RaytraceMode::RaytracedShadows && capabilities.hardware_ray_query
}

/// The per-camera configuration that active settings give a managed view.
pub open spec fn view_from_settings(settings: RaytraceSettings) -> RaytraceView {
    RaytraceView { quality: settings.quality, debug: settings.debug }
}

/// What to do with the [`RaytraceView`] of one managed camera.
#[derive(Clone, Copy, Debug, PartialEq, Eq, Structural)]
pub enum ManagedViewUpdate {
    /// Insert the view, or overwrite the one that is there.
    Insert(RaytraceView),
    /// Remove the camera's view.
    Remove,
    /// Leave the camera without a view.
    Keep,
}

/// The camera's view after an update is carried out.
pub open spec fn apply_view_update(current: Option<RaytraceView>, update: ManagedViewUpdate) -> Option<
    RaytraceView,
> {
    match update {
        ManagedViewUpdate::Insert(view) => Some(view),
        ManagedViewUpdate::Remove => None,
        ManagedViewUpdate::Keep => current,
    }
}

/// The update that a managed camera (a `Camera3d` without
/// [`DisableRaytraceView`]) gets: while tracing is active it carries a view with
/// the settings' quality and debug mode; otherwise any view it has is removed.
pub open spec fn spec_managed_view_update(
    settings: RaytraceSettings,
    capabilities: RaytraceCapabilities,
    has_view: bool,
) -> ManagedViewUpdate {
    if tracing_active(settings, capabilities) {
        ManagedViewUpdate::Insert(view_from_settings(settings))
    } else if has_view {
        ManagedViewUpdate::Remove
    } else {
        ManagedViewUpdate::Keep
    }
}

/// Decide how a managed camera follows the settings.
pub fn managed_view_update(
    settings: &RaytraceSettings,
    capabilities: &RaytraceCapabilities,
    has_view: bool,
) -> (update: ManagedViewUpdate)
    ensures
        update == spec_managed_view_update(*settings, *capabilities, has_view),
        update matches ManagedViewUpdate::Insert(view) ==> view.quality == settings.quality
            && view.debug == settings.debug,
        (update is Insert) <==> (settings.mode == RaytraceMode::RaytracedShadows
            && capabilities.hardware_ray_query),
        (update is Remove) <==> (!(settings.mode == RaytraceMode::RaytracedShadows
            && capabilities.hardware_ray_query) && has_view),
{
    if settings.mode == RaytraceMode::RaytracedShadows && capabilities.hardware_ray_query {
        ManagedViewUpdate::Insert(RaytraceView { quality: settings.quality, debug: settings.debug })
    } else if has_view {
        ManagedViewUpdate::Remove
    } else {
        ManagedViewUpdate::Keep
    }
}

/// An inserted view carries the settings' own quality preset and debug mode,
/// whatever they are; a view is inserted exactly when the settings select the
/// raytraced path on hardware with ray queries, and removed exactly when they do
/// not and the camera has one.
pub proof fn lemma_inserted_view_carries_settings(
    settings: RaytraceSettings,
    capabilities: RaytraceCapabilities,
    has_view: bool,
)
    ensures
        spec_managed_view_update(settings, capabilities, has_view) matches ManagedViewUpdate::Insert(
            view,
        ) ==> view.quality == settings.quality && view.debug == settings.debug,
        (spec_managed_view_update(settings, capabilities, has_view) is Insert) <==> (settings.mode
            == RaytraceMode::RaytracedShadows && capabilities.hardware_ray_query),
        (spec_managed_view_update(settings, capabilities, has_view) is Remove) <==> (!(
        settings.mode == RaytraceMode::RaytracedShadows && capabilities.hardware_ray_query)
            && has_view),
{
}

/// After one update every managed camera carries a view exactly when tracing is
/// active, and that view holds the settings' quality and debug mode; a second
/// update with the same settings changes nothing.
pub proof fn lemma_managed_views_follow_settings(
    settings: RaytraceSettings,
    capabilities: RaytraceCapabilities,
    current: Option<RaytraceView>,
)
    ensures
        ({
            let once = apply_view_update(
                current,
                spec_managed_view_update(settings, capabilities, current is Some),
            );
            let twice = apply_view_update(
                once,
                spec_managed_view_update(settings, capabilities, once is Some),
            );
            &&& once == (if tracing_active(settings, capabilities) {
                Some(view_from_settings(settings))
            } else {
                None::<RaytraceView>
            })
            &&& twice == once
        }),
{
}

/// A raytraced view renders without multisampling: the view is valid only with
/// `Msaa::Off`, whose sample count is one.
pub fn raytrace_view_msaa_supported(msaa_samples: u32) -> (supported: bool)
    ensures
        supported == (msaa_samples == 1),
{
    msaa_samples == 1
}

} // verus!
