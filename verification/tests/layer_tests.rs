//! Layer fading, state transitions and the pose crossfade.

use glam::Quat;
use mmd_engine::algebra::{Q4, V3};
use mmd_engine::animation::VmdAnimation;
use mmd_engine::bezier::CurveCache;
use mmd_engine::bone::BoneLink;
use mmd_engine::bone_set::BoneSet;
use mmd_engine::keyframe::BoneKeyframe;
use mmd_engine::layer::{AnimationLayer, AnimationLayerState};
use mmd_engine::morph::MorphManager;
use mmd_engine::track::BoneMotionTrack;

fn v(x: f32, y: f32, z: f32) -> V3 {
    V3 { x: x.to_bits(), y: y.to_bits(), z: z.to_bits() }
}

fn q_from_glam(a: Quat) -> Q4 {
    let ar = a.to_array();
    Q4 { x: ar[0].to_bits(), y: ar[1].to_bits(), z: ar[2].to_bits(), w: ar[3].to_bits() }
}

fn q_to_glam(a: Q4) -> Quat {
    Quat::from_xyzw(
        f32::from_bits(a.x),
        f32::from_bits(a.y),
        f32::from_bits(a.z),
        f32::from_bits(a.w),
    )
}

fn one_bone_set() -> BoneSet {
    let mut set = BoneSet::new();
    set.add_bone("root".to_string(), BoneLink::new(-1, 0, v(0.0, 0.0, 0.0)));
    set.build_hierarchy();
    set
}

#[test]
fn fade_in_reaches_exactly_the_configured_weight() {
    let mut layer = AnimationLayer::new(0, "base".to_string());
    layer.set_animation(Some(VmdAnimation::new()));
    layer.set_weight(0.8f32.to_bits());
    layer.config.fade_in_time = 1.0f32.to_bits();
    layer.play();
    assert_eq!(layer.state(), AnimationLayerState::FadingIn);
    let quarter = 0.25f32.to_bits();
    layer.update(quarter);
    // Partway through, the effective weight is the scaled share.
    let partway = f32::from_bits(layer.effective_weight());
    assert!((partway - 0.2).abs() < 1e-6);
    layer.update(quarter);
    layer.update(quarter);
    layer.update(quarter);
    // The finished fade pays out the configured weight bit for bit.
    assert_eq!(layer.state(), AnimationLayerState::Playing);
    assert_eq!(layer.effective_weight(), 0.8f32.to_bits());
}

#[test]
fn fade_out_lands_exactly_on_zero() {
    let mut layer = AnimationLayer::new(0, "base".to_string());
    layer.set_animation(Some(VmdAnimation::new()));
    layer.set_weight(0.8f32.to_bits());
    layer.config.fade_out_time = 1.0f32.to_bits();
    layer.play();
    layer.update(0.1f32.to_bits());
    layer.stop();
    assert_eq!(layer.state(), AnimationLayerState::FadingOut);
    let half = 0.5f32.to_bits();
    layer.update(half);
    let midway = f32::from_bits(layer.effective_weight());
    assert!((midway - 0.4).abs() < 1e-6);
    layer.update(half);
    layer.update(half);
    assert_eq!(layer.state(), AnimationLayerState::Stopped);
    assert_eq!(f32::from_bits(layer.effective_weight()), 0.0);
    assert_eq!(layer.effective_weight(), 0u32);
}

#[test]
fn immediate_stop_without_fade_rewinds() {
    let mut layer = AnimationLayer::new(0, "base".to_string());
    layer.set_animation(Some(VmdAnimation::new()));
    layer.play();
    assert_eq!(layer.state(), AnimationLayerState::Playing);
    layer.stop();
    assert_eq!(layer.state(), AnimationLayerState::Stopped);
    assert_eq!(layer.effective_weight(), 0);
    assert_eq!(layer.current_frame(), 0);
}

#[test]
fn pause_and_resume_hold_the_frame() {
    let mut layer = AnimationLayer::new(0, "base".to_string());
    layer.set_animation(Some(VmdAnimation::new()));
    layer.play();
    layer.pause();
    assert_eq!(layer.state(), AnimationLayerState::Paused);
    layer.resume();
    assert_eq!(layer.state(), AnimationLayerState::Playing);
}

#[test]
fn pose_crossfade_follows_the_smoothstep() {
    // Start at pose A, switch to animation B over one second; at half a
    // second the bone's orientation is slerp(A, B, smoothstep(0.5)).
    let qa = Quat::from_rotation_z(0.9);
    let qb = Quat::from_rotation_x(-0.6);
    let mut bones = one_bone_set();
    let mut morphs = MorphManager::new();
    let mut cache = CurveCache::new();
    bones.begin_update();
    bones.set_bone_rotation(0, q_from_glam(qa));

    let mut animation = VmdAnimation::new();
    let mut track = BoneMotionTrack::new();
    let mut kf = BoneKeyframe::new(0);
    kf.orientation = q_from_glam(qb);
    track.insert_keyframe(kf);
    animation.add_bone_track(0, track);

    let mut layer = AnimationLayer::new(0, "pose".to_string());
    layer.transition_to(Some(animation), 1.0f32.to_bits(), &bones, &morphs);
    assert_eq!(layer.state(), AnimationLayerState::Transitioning);

    layer.update(0.5f32.to_bits());
    bones.begin_update();
    layer.evaluate(&mut bones, &mut morphs, &mut cache);

    let got = q_to_glam(bones.get_bone(0).unwrap().animation_rotate);
    let s = 0.5f32 * 0.5 * (3.0 - 2.0 * 0.5);
    let expected = qa.slerp(qb, s);
    let delta = (got.dot(expected)).abs();
    assert!(delta > 1.0 - 1e-4, "got {got:?} expected {expected:?}");
}

#[test]
fn transition_without_duration_plays_at_once() {
    let bones = one_bone_set();
    let morphs = MorphManager::new();
    let mut layer = AnimationLayer::new(0, "pose".to_string());
    layer.transition_to(Some(VmdAnimation::new()), 0, &bones, &morphs);
    assert_eq!(layer.state(), AnimationLayerState::Playing);
    assert!(layer.transition_snapshot.is_none());
}
