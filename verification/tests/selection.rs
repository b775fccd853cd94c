use bevy_luna::realtime::selection::{punctual_score_key, select_raytrace_lights, sort_scored_lights};
use bevy_luna::{push_directional_light, push_punctual_light, RaytraceLightSelection, MAX_DIRECTIONAL_LIGHTS, MAX_PUNCTUAL_LIGHTS};

fn key(score: f32) -> u32 {
    punctual_score_key(score.to_bits())
}

#[test]
fn score_keys_order_like_total_cmp() {
    let values = [
        f32::NEG_INFINITY, -1.0e9, -2.5, -0.0, 0.0, 1.0e-30, 1.0, 2.5, 4.0e8, f32::INFINITY, f32::NAN,
        -f32::NAN, f32::MIN_POSITIVE, -f32::MIN_POSITIVE,
    ];
    for a in values {
        for b in values {
            assert_eq!(key(a).cmp(&key(b)), a.total_cmp(&b), "{a} vs {b}");
        }
    }
    assert_eq!(punctual_score_key(0), 0x8000_0000);
    assert_eq!(punctual_score_key(0x8000_0000), 0x7FFF_FFFF);
    assert_eq!(punctual_score_key(0xFFFF_FFFF), 0);
}

#[test]
fn sort_is_descending_and_stable() {
    let scored = vec![(3u32, 'a'), (7, 'b'), (3, 'c'), (9, 'd'), (7, 'e'), (1, 'f')];
    let sorted = sort_scored_lights(&scored);
    assert_eq!(sorted, vec![(9, 'd'), (7, 'b'), (7, 'e'), (3, 'a'), (3, 'c'), (1, 'f')]);
    assert!(sort_scored_lights::<char>(&vec![]).is_empty());
}

#[test]
fn push_fills_slots_then_drops() {
    let mut selection: RaytraceLightSelection<u8, u16> = RaytraceLightSelection::new(0, 0);
    for light in 1..=6u8 {
        push_directional_light(&mut selection, light);
    }
    assert_eq!(selection.directional_light_count(), 4);
    assert_eq!(selection.directional_lights(), &vec![1, 2, 3, 4]);
    assert_eq!(selection.punctual_light_count(), 0);
    for light in 1..=40u16 {
        push_punctual_light(&mut selection, light);
    }
    assert_eq!(selection.punctual_light_count() as usize, MAX_PUNCTUAL_LIGHTS);
    let expected: Vec<u16> = (1..=32).collect();
    assert_eq!(selection.punctual_lights(), &expected);
}

#[test]
fn selection_keeps_highest_scoring_lights() {
    let directional = vec![10u8, 20];
    let punctual: Vec<(u32, u16)> = (0..40u16).map(|i| (key(((i * 7) % 40) as f32), i)).collect();
    let selection = select_raytrace_lights(&directional, &punctual, 0u8, u16::MAX);
    assert_eq!(selection.directional_light_count(), 2);
    assert_eq!(selection.directional_lights(), &vec![10, 20, 0, 0]);
    assert_eq!(selection.punctual_light_count() as usize, MAX_PUNCTUAL_LIGHTS);
    let mut by_score: Vec<(u16, u16)> = (0..40u16).map(|i| ((i * 7) % 40, i)).collect();
    by_score.sort_by(|a, b| b.0.cmp(&a.0));
    let expected: Vec<u16> = by_score.iter().take(32).map(|entry| entry.1).collect();
    assert_eq!(selection.punctual_lights(), &expected);
    assert_eq!(MAX_DIRECTIONAL_LIGHTS, 4);
}

#[test]
fn selection_with_few_lights_pads_slots() {
    let punctual = vec![(key(2.0), 'x'), (key(5.0), 'y'), (key(2.0), 'z')];
    let selection = select_raytrace_lights(&vec!['d'; 6], &punctual, '-', '.');
    assert_eq!(selection.directional_light_count(), 4);
    assert_eq!(selection.directional_lights(), &vec!['d'; 4]);
    assert_eq!(selection.punctual_light_count(), 3);
    assert_eq!(&selection.punctual_lights()[..4], &['y', 'x', 'z', '.']);
    assert_eq!(selection.punctual_lights().len(), MAX_PUNCTUAL_LIGHTS);
}

#[test]
fn shader_light_limits() {
    assert_eq!(MAX_DIRECTIONAL_LIGHTS, 4);
    assert_eq!(MAX_PUNCTUAL_LIGHTS, 32);
}
