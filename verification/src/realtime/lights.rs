//! Ownership of supported lights (directional, point and spot).
//!
//! A supported light's authored value (illuminance or intensity) is captured once
//! as its baseline. In raytraced mode Bevy's rasterized light is switched off
//! (value zero, no shadow maps) after clustering, and the traced path lights it
//! with the baseline, or with a pinned override. In Bevy mode the light is given
//! back its baseline (or override) with shadow maps on. The light value type is
//! generic: the renderer uses `f32`.

use super::RaytraceMode;
use vstd::prelude::*;

verus! {

/// The supported-light state that the mode systems read and write for one light
/// entity.
#[derive(Debug)]
pub struct ManagedLight<T> {
    /// The value of the Bevy light (illuminance or intensity).
    pub value: T,
    /// Whether Bevy renders shadow maps for the light.
    pub shadows_enabled: bool,
    /// The captured authored value, once it has been captured.
    pub baseline: Option<T>,
    /// A pinned value for the raytraced path (`RaytraceDirectionalLight` or
    /// `RaytracePunctualLight`), if the light carries one.
    pub override_value: Option<T>,
}

/// The baseline that both modes use for a light: the override when there is one,
/// else the captured value.
pub open spec fn effective_value<T>(baseline: T, override_value: Option<T>) -> T {
    match override_value {
        Some(value) => value,
        None => baseline,
    }
}

/// The override when there is one, else the captured value.
pub fn effective_light_value<T: Copy>(baseline: T, override_value: Option<T>) -> (value: T)
    ensures
        value == effective_value(baseline, override_value),
{
    match override_value {
        Some(value) => value,
        None => baseline,
    }
}

/// Capture the light's current value as its baseline, unless one was captured
/// before.
pub open spec fn spec_sync_baseline<T>(light: ManagedLight<T>) -> ManagedLight<T> {
    match light.baseline {
        Some(_) => light,
        None => ManagedLight { baseline: Some(light.value), ..light },
    }
}

/// In raytraced mode, give a light with a baseline its effective value back so
/// that clustering sees it; otherwise leave it.
pub open spec fn spec_restore_for_clustering<T>(light: ManagedLight<T>, mode: RaytraceMode) -> ManagedLight<T> {
    match light.baseline {
        Some(baseline) => if mode == RaytraceMode::RaytracedShadows {
            ManagedLight { value: effective_value(baseline, light.override_value), ..light }
        } else {
            light
        },
        None => light,
    }
}

/// Give a light with a baseline the render state of the mode: switched off
/// without shadow maps in raytraced mode; its effective value with shadow maps in
/// Bevy mode.
pub open spec fn spec_apply_render_mode<T>(light: ManagedLight<T>, mode: RaytraceMode, zero: T) -> ManagedLight<T> {
    match light.baseline {
        Some(baseline) => if mode == RaytraceMode::RaytracedShadows {
            ManagedLight { value: zero, shadows_enabled: false, ..light }
        } else {
            ManagedLight {
                value: effective_value(baseline, light.override_value),
                shadows_enabled: true,
                ..light
            }
        },
        None => light,
    }
}

/// The value with which the traced path lights the light: its override, else its
/// captured baseline, else the Bevy light's current value.
pub open spec fn spec_raytrace_light_value<T>(light: ManagedLight<T>) -> T {
    match light.override_value {
        Some(value) => value,
        None => match light.baseline {
            Some(baseline) => baseline,
            None => light.value,
        },
    }
}

/// One frame of the mode systems, in their schedule order: capture baselines,
/// restore for clustering, (clustering), apply the render mode.
pub open spec fn spec_light_frame<T>(light: ManagedLight<T>, mode: RaytraceMode, zero: T) -> ManagedLight<T> {
    spec_apply_render_mode(
        spec_restore_for_clustering(spec_sync_baseline(light), mode),
        mode,
        zero,
    )
}

/// The light after one frame per mode of `modes`, in order.
pub open spec fn spec_light_frames<T>(light: ManagedLight<T>, modes: Seq<RaytraceMode>, zero: T) -> ManagedLight<T>
    decreases modes.len(),
{
    if modes.len() == 0 {
        light
    } else {
        spec_light_frame(spec_light_frames(light, modes.drop_last(), zero), modes.last(), zero)
    }
}

/// The authored value of a light: the baseline it already has, or its value.
pub open spec fn authored_value<T>(light: ManagedLight<T>) -> T {
    match light.baseline {
        Some(baseline) => baseline,
        None => light.value,
    }
}

/// Capture the baseline of a light that has none (the light is matched by the
/// baseline system only if it is not opted out).
pub fn sync_supported_light_baseline<T: Copy>(light: &mut ManagedLight<T>)
    ensures
        *final(light) == spec_sync_baseline(*old(light)),
{
    if light.baseline.is_none() {
        light.baseline = Some(light.value);
    }
}

/// Before clustering, in raytraced mode, give the light its effective value.
pub fn restore_supported_light_for_clustering<T: Copy>(light: &mut ManagedLight<T>, mode: RaytraceMode)
    ensures
        *final(light) == spec_restore_for_clustering(*old(light), mode),
{
    if mode != RaytraceMode::RaytracedShadows {
        return;
    }
    match light.baseline {
        Some(baseline) => {
            light.value = effective_light_value(baseline, light.override_value);
        },
        None => {},
    }
}

/// After clustering, give the light the render state of the mode; `zero` is the
/// switched-off light value.
pub fn apply_supported_light_render_mode<T: Copy>(
    light: &mut ManagedLight<T>,
    mode: RaytraceMode,
    zero: T,
)
    ensures
        *final(light) == spec_apply_render_mode(*old(light), mode, zero),
{
    let raytraced = mode == RaytraceMode::RaytracedShadows;
    match light.baseline {
        Some(baseline) => {
            light.value = if raytraced {
                zero
            } else {
                effective_light_value(baseline, light.override_value)
            };
            light.shadows_enabled = !raytraced;
        },
        None => {},
    }
}

/// The value with which the traced path lights the light.
pub fn raytrace_light_value<T: Copy>(light: &ManagedLight<T>) -> (value: T)
    ensures
        value == spec_raytrace_light_value(*light),
{
    match light.override_value {
        Some(value) => value,
        None => match light.baseline {
            Some(baseline) => baseline,
            None => light.value,
        },
    }
}

/// The baseline is captured once: after any number of frames in any modes it is
/// the authored value of the light, and the override is left as it was.
pub proof fn lemma_baseline_captured_once<T>(light: ManagedLight<T>, modes: Seq<RaytraceMode>, zero: T)
    requires
        modes.len() > 0,
    ensures
        spec_light_frames(light, modes, zero).baseline == Some(authored_value(light)),
        spec_light_frames(light, modes, zero).override_value == light.override_value,
    decreases modes.len(),
{
    if modes.len() > 1 {
        lemma_baseline_captured_once(light, modes.drop_last(), zero);
    } else {
        assert(spec_light_frames(light, modes.drop_last(), zero) == light);
    }
}

/// Switching modes at run time: after a frame in Bevy mode the light shows its
/// authored value (or its override) with shadow maps, whatever modes came before;
/// after a frame in raytraced mode it is switched off in Bevy, without shadow
/// maps.
pub proof fn lemma_mode_switch_restores_light<T>(
    light: ManagedLight<T>,
    modes: Seq<RaytraceMode>,
    zero: T,
)
    requires
        modes.len() > 0,
    ensures
        ({
            let after = spec_light_frames(light, modes, zero);
            if modes.last() == RaytraceMode::Bevy {
                &&& after.value == effective_value(authored_value(light), light.override_value)
                &&& after.shadows_enabled
            } else {
                &&& after.value == zero
                &&& !after.shadows_enabled
            }
        }),
{
    if modes.len() > 1 {
        lemma_baseline_captured_once(light, modes.drop_last(), zero);
    } else {
        assert(spec_light_frames(light, modes.drop_last(), zero) == light);
    }
}

/// In raytraced mode clustering sees the light with its effective value, and
/// the traced path lights it with that same value: the brightness of a light is
/// the same in both modes.
pub proof fn lemma_raytraced_brightness_matches_bevy<T>(
    light: ManagedLight<T>,
    modes: Seq<RaytraceMode>,
    zero: T,
)
    ensures
        ({
            let before = spec_light_frames(light, modes, zero);
            let clustered = spec_restore_for_clustering(
                spec_sync_baseline(before),
                RaytraceMode::RaytracedShadows,
            );
            let after = spec_light_frame(before, RaytraceMode::RaytracedShadows, zero);
            &&& clustered.value == effective_value(authored_value(light), light.override_value)
            &&& spec_raytrace_light_value(after) == effective_value(
                authored_value(light),
                light.override_value,
            )
        }),
{
    if modes.len() > 0 {
        lemma_baseline_captured_once(light, modes, zero);
    }
}

} // verus!
