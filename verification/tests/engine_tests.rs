//! End-to-end ticks of the assembled pipeline.

use glam::{Mat4, Vec3};
use mmd_engine::algebra::{M4, V3};
use mmd_engine::animation::VmdAnimation;
use mmd_engine::bone::BoneLink;
use mmd_engine::config::{reset_config, PhysicsConfig};
use mmd_engine::engine::MmdEngine;
use mmd_engine::keyframe::BoneKeyframe;
use mmd_engine::physics::{JointDesc, RigidBodyDesc, RigidBodyMode, ShapeKind};
use mmd_engine::track::BoneMotionTrack;

fn v(x: f32, y: f32, z: f32) -> V3 {
    V3 { x: x.to_bits(), y: y.to_bits(), z: z.to_bits() }
}

fn m_to_glam(a: &M4) -> Mat4 {
    let mut c = [0f32; 16];
    for i in 0..16 {
        c[i] = f32::from_bits(a.m[i]);
    }
    Mat4::from_cols_array(&c)
}

#[test]
fn a_tick_applies_the_animation_through_to_skinning() {
    let mut engine = MmdEngine::new(4);
    engine.bones.add_bone("root".to_string(), BoneLink::new(-1, 0, v(0.0, 0.0, 0.0)));
    engine.bones.add_bone("child".to_string(), BoneLink::new(0, 1, v(0.0, 1.0, 0.0)));
    engine.bones.build_hierarchy();
    assert!(engine.bones.hierarchy_ok);

    let mut animation = VmdAnimation::new();
    let mut track = BoneMotionTrack::new();
    let mut kf = BoneKeyframe::new(0);
    kf.translation = v(2.0, 0.0, 0.0);
    track.insert_keyframe(kf);
    animation.add_bone_track(0, track);
    engine.layers.set_layer_animation(0, Some(animation));
    engine.layers.play_layer(0);

    let mut positions: Vec<V3> = Vec::new();
    engine.tick((1.0f32 / 30.0).to_bits(), &mut positions);

    // The root carries the animated shift; the child inherits it.
    let root_world = m_to_glam(&engine.bones.get_bone(0).unwrap().local_to_world);
    let child_world = m_to_glam(&engine.bones.get_bone(1).unwrap().local_to_world);
    assert!((root_world.transform_point3(Vec3::ZERO) - Vec3::new(2.0, 0.0, 0.0)).length() < 1e-5);
    assert!((child_world.transform_point3(Vec3::ZERO) - Vec3::new(2.0, 1.0, 0.0)).length() < 1e-5);
    // The skinning matrix maps the bind position onto the posed one.
    let skin = m_to_glam(&engine.bones.get_skinning_matrices()[1]);
    let posed = skin.transform_point3(Vec3::new(0.0, 1.0, 0.0));
    assert!((posed - Vec3::new(2.0, 1.0, 0.0)).length() < 1e-4);
}

#[test]
fn physics_build_tick_and_teardown_stay_clean() {
    let mut engine = MmdEngine::new(2);
    engine.bones.add_bone("root".to_string(), BoneLink::new(-1, 0, v(0.0, 0.0, 0.0)));
    engine.bones.build_hierarchy();
    let config = PhysicsConfig::default();
    let bodies = vec![RigidBodyDesc {
        name: "rb".to_string(),
        bone_index: 0,
        mode: RigidBodyMode::Static,
        shape: ShapeKind::Sphere,
        size: v(0.5, 0.0, 0.0),
        position: v(0.0, 0.0, 0.0),
        rotation: v(0.0, 0.0, 0.0),
        mass: 1.0f32.to_bits(),
        move_attenuation: 0.5f32.to_bits(),
        rotation_attenuation: 0.5f32.to_bits(),
        friction: 0.5f32.to_bits(),
        repulsion: 0.0f32.to_bits(),
        group: 0,
        group_mask: 0xFFFF,
    }];
    let joints: Vec<JointDesc> = Vec::new();
    engine.build_physics(&bodies, &joints, &config);

    let mut positions: Vec<V3> = Vec::new();
    let writes = engine.tick_begin((1.0f32 / 60.0).to_bits(), &mut positions);
    assert_eq!(writes.len(), 1);
    let (_, substeps, fixed) = engine.step_parameters((1.0f32 / 60.0).to_bits());
    assert_eq!(substeps, 4);
    assert_eq!(f32::from_bits(fixed), 1.0 / 60.0);
    let body_transforms: Vec<M4> = vec![writes[0].1];
    engine.tick_finish(&body_transforms);

    let stats = engine.dispose_physics().unwrap();
    assert!(stats.is_clean());
    assert!(engine.dispose_physics().is_none());
}

#[test]
fn default_config_restores_on_reset() {
    let mut config = PhysicsConfig::default();
    config.gravity_y = (-98.0f32).to_bits();
    config.joints_enabled = false;
    reset_config(&mut config);
    assert_eq!(f32::from_bits(config.gravity_y), -3.8);
    assert_eq!(f32::from_bits(config.physics_fps), 60.0);
    assert_eq!(config.max_substep_count, 4);
    assert_eq!(config.solver_iterations, 8);
    assert!(config.joints_enabled);
    assert_eq!(f32::from_bits(config.mass_scale), 2.0);
}
