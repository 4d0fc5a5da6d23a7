//! Motion track search, seek and the sub-frame blend.

use mmd_engine::algebra::{Q4, V3};
use mmd_engine::bezier::CurveCache;
use mmd_engine::keyframe::{BoneKeyframe, IkKeyframe, MorphKeyframe};
use mmd_engine::track::{BoneMotionTrack, IkMotionTrack, MorphMotionTrack};

fn v(x: f32, y: f32, z: f32) -> V3 {
    V3 { x: x.to_bits(), y: y.to_bits(), z: z.to_bits() }
}

fn identity_q() -> Q4 {
    Q4 { x: 0, y: 0, z: 0, w: 1.0f32.to_bits() }
}

fn bone_keyframe(frame: u32, t: V3) -> BoneKeyframe {
    let mut kf = BoneKeyframe::new(frame);
    kf.translation = t;
    kf
}

#[test]
fn single_keyframe_only_next_is_taken_verbatim() {
    // One keyframe at frame 30 with translation (1, 2, 3): evaluating at
    // frame 15, before any earlier keyframe, yields it verbatim.
    let mut track = BoneMotionTrack::new();
    track.insert_keyframe(bone_keyframe(30, v(1.0, 2.0, 3.0)));
    let mut cache = CurveCache::new();
    let out = track.seek(15, &mut cache);
    assert_eq!(out.translation, v(1.0, 2.0, 3.0));
    assert_eq!(out.orientation, identity_q());
    assert_eq!(out.local_transform_mix, None);
    assert!(!out.disable_physics);
}

#[test]
fn two_keyframes_linear_interpolation() {
    // Keyframes at frames 0 and 30, translations (0,0,0) and (10,0,0).
    let mut track = BoneMotionTrack::new();
    track.insert_keyframe(bone_keyframe(0, v(0.0, 0.0, 0.0)));
    track.insert_keyframe(bone_keyframe(30, v(10.0, 0.0, 0.0)));
    let mut cache = CurveCache::new();
    // Halfway the x component is five.
    let mid = track.seek(15, &mut cache);
    assert!((f32::from_bits(mid.translation.x) - 5.0).abs() < 1e-5);
    // On the keyframe it is exactly ten.
    let end = track.seek(30, &mut cache);
    assert_eq!(f32::from_bits(end.translation.x), 10.0);
}

#[test]
fn physics_hand_over_edge_emits_crossfade() {
    let mut track = BoneMotionTrack::new();
    let mut first = bone_keyframe(0, v(0.0, 0.0, 0.0));
    first.is_physics_simulation_enabled = true;
    let mut second = bone_keyframe(30, v(4.0, 0.0, 0.0));
    second.is_physics_simulation_enabled = false;
    track.insert_keyframe(first);
    track.insert_keyframe(second);
    let mut cache = CurveCache::new();
    let out = track.seek(15, &mut cache);
    assert_eq!(out.translation, v(4.0, 0.0, 0.0));
    assert_eq!(out.local_transform_mix, Some(0.5f32.to_bits()));
    assert!(!out.enable_physics);
    assert!(out.disable_physics);
}

#[test]
fn symmetric_hand_over_edge_enables_physics() {
    // Physics disabled at the previous keyframe and enabled at the next:
    // the symmetric crossfade hands control to physics.
    let mut track = BoneMotionTrack::new();
    let mut first = bone_keyframe(0, v(0.0, 0.0, 0.0));
    first.is_physics_simulation_enabled = false;
    let mut second = bone_keyframe(30, v(4.0, 0.0, 0.0));
    second.is_physics_simulation_enabled = true;
    track.insert_keyframe(first);
    track.insert_keyframe(second);
    let mut cache = CurveCache::new();
    let out = track.seek(15, &mut cache);
    assert_eq!(out.translation, v(4.0, 0.0, 0.0));
    assert_eq!(out.local_transform_mix, Some(0.5f32.to_bits()));
    assert!(out.enable_physics);
    assert!(!out.disable_physics);
}

#[test]
fn insert_replaces_and_search_brackets() {
    let mut track = BoneMotionTrack::new();
    assert!(track.insert_keyframe(bone_keyframe(10, v(1.0, 0.0, 0.0))).is_none());
    assert!(track.insert_keyframe(bone_keyframe(40, v(2.0, 0.0, 0.0))).is_none());
    assert!(track.insert_keyframe(bone_keyframe(20, v(3.0, 0.0, 0.0))).is_none());
    // Replacement returns the previous keyframe at that frame.
    let replaced = track.insert_keyframe(bone_keyframe(20, v(9.0, 0.0, 0.0)));
    assert_eq!(replaced.unwrap().translation, v(3.0, 0.0, 0.0));
    assert_eq!(track.len(), 3);
    assert_eq!(track.search_closest(25), (Some(20), Some(40)));
    assert_eq!(track.search_closest(5), (None, Some(10)));
    assert_eq!(track.search_closest(40), (Some(40), None));
    assert_eq!(track.max_frame_index(), 40);
    let removed = track.remove_keyframe(20);
    assert_eq!(removed.unwrap().translation, v(9.0, 0.0, 0.0));
    assert_eq!(track.len(), 2);
    assert!(track.remove_keyframe(20).is_none());
}

#[test]
fn morph_track_interpolates_linearly() {
    let mut track = MorphMotionTrack::new();
    track.insert_keyframe(MorphKeyframe::new(0, 0.0f32.to_bits()));
    track.insert_keyframe(MorphKeyframe::new(20, 1.0f32.to_bits()));
    assert_eq!(f32::from_bits(track.seek(0)), 0.0);
    assert_eq!(f32::from_bits(track.seek(20)), 1.0);
    assert!((f32::from_bits(track.seek(5)) - 0.25).abs() < 1e-6);
    assert_eq!(f32::from_bits(track.seek(25)), 1.0);
    // The sub-frame blend moves between the whole-frame values.
    let w = track.seek_precisely(9, 0.5f32.to_bits());
    assert!((f32::from_bits(w) - 0.475).abs() < 1e-6);
}

#[test]
fn ik_track_latches_most_recent_flag() {
    let mut track = IkMotionTrack::new();
    assert!(track.is_enabled_at(100));
    track.insert_keyframe(IkKeyframe::new(10, "arm".to_string(), false));
    track.insert_keyframe(IkKeyframe::new(30, "arm".to_string(), true));
    assert!(track.is_enabled_at(0));
    assert!(!track.is_enabled_at(10));
    assert!(!track.is_enabled_at(29));
    assert!(track.is_enabled_at(30));
    assert!(track.is_enabled_at(99));
    assert_eq!(track.max_frame_index(), 30);
}

#[test]
fn bone_seek_precisely_blends_whole_frames() {
    let mut track = BoneMotionTrack::new();
    track.insert_keyframe(bone_keyframe(0, v(0.0, 0.0, 0.0)));
    track.insert_keyframe(bone_keyframe(2, v(8.0, 0.0, 0.0)));
    let mut cache = CurveCache::new();
    // Frames 0 and 1 hold x = 0 and x = 4; half a frame in, x = 2.
    let out = track.seek_precisely(0, 0.5f32.to_bits(), &mut cache);
    assert!((f32::from_bits(out.translation.x) - 2.0).abs() < 1e-5);
}
