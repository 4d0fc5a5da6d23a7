//! The physics bridge: derivation, synchronisation and the teardown
//! ledger.

use glam::{Mat4, Quat, Vec3};
use mmd_engine::algebra::{M4, V3};
use mmd_engine::config::PhysicsConfig;
use mmd_engine::physics::{
    collision_group, spring_enabled, JointDesc, MMDPhysics, MmdRigidBodyData, PhysicsMode,
    RigidBodyDesc, RigidBodyMode, ShapeKind,
};

fn v(x: f32, y: f32, z: f32) -> V3 {
    V3 { x: x.to_bits(), y: y.to_bits(), z: z.to_bits() }
}

fn m_from_glam(a: Mat4) -> M4 {
    let c = a.to_cols_array();
    let mut m = [0u32; 16];
    for i in 0..16 {
        m[i] = c[i].to_bits();
    }
    M4 { m }
}

fn m_to_glam(a: &M4) -> Mat4 {
    let mut c = [0f32; 16];
    for i in 0..16 {
        c[i] = f32::from_bits(a.m[i]);
    }
    Mat4::from_cols_array(&c)
}

fn body_desc(name: &str, bone: i32, mode: RigidBodyMode) -> RigidBodyDesc {
    RigidBodyDesc {
        name: name.to_string(),
        bone_index: bone,
        mode,
        shape: ShapeKind::Sphere,
        size: v(0.5, 0.0, 0.0),
        position: v(0.0, 1.0, 0.0),
        rotation: v(0.0, 0.0, 0.0),
        mass: 1.0f32.to_bits(),
        move_attenuation: 0.5f32.to_bits(),
        rotation_attenuation: 0.5f32.to_bits(),
        friction: 0.5f32.to_bits(),
        repulsion: 0.0f32.to_bits(),
        group: 0,
        group_mask: 0xFFFF,
    }
}

fn joint_desc(name: &str, a: i32, b: i32) -> JointDesc {
    JointDesc {
        name: name.to_string(),
        rigid_body_a_index: a,
        rigid_body_b_index: b,
        position: v(0.0, 1.0, 0.0),
        rotation: v(0.0, 0.0, 0.0),
        position_min: v(0.0, 0.0, 0.0),
        position_max: v(0.0, 0.0, 0.0),
        rotation_min: v(-0.5, -0.5, -0.5),
        rotation_max: v(0.5, 0.5, 0.5),
        position_spring: v(0.0, 10.0, 0.0),
        rotation_spring: v(1.0, 1.0, 1.0),
    }
}

#[test]
fn mode_group_and_spring_derivations() {
    assert_eq!(collision_group(0), 1);
    assert_eq!(collision_group(3), 8);
    assert_eq!(collision_group(15), 1 << 15);
    assert_eq!(collision_group(200), 1 << 15);
    assert!(!spring_enabled(0.0f32.to_bits()));
    assert!(!spring_enabled(1e-7f32.to_bits()));
    assert!(spring_enabled(0.01f32.to_bits()));
    assert!(spring_enabled((-0.01f32).to_bits()));
    assert!(!spring_enabled(f32::NAN.to_bits()));
    let rb = MmdRigidBodyData::from_desc(&body_desc("a", -1, RigidBodyMode::Static), None);
    assert_eq!(rb.physics_mode, PhysicsMode::FollowBone);
    assert!(!rb.is_zero_volume);
    let mut flat = body_desc("b", -1, RigidBodyMode::Dynamic);
    flat.shape = ShapeKind::Box;
    flat.size = v(1.0, 0.0, 1.0);
    let rb2 = MmdRigidBodyData::from_desc(&flat, None);
    assert_eq!(rb2.physics_mode, PhysicsMode::Physics);
    assert!(rb2.is_zero_volume);
}

#[test]
fn body_offset_round_trips_through_the_bone_frame() {
    // offset = inv_z(bone)^-1 * body_world, so bone_left * offset gives the
    // body world back.
    let bone_world = Mat4::from_rotation_translation(Quat::from_rotation_y(0.4), Vec3::new(0.0, 1.0, 0.5));
    let desc = body_desc("hair", 0, RigidBodyMode::Dynamic);
    let rb = MmdRigidBodyData::from_desc(&desc, Some(m_from_glam(bone_world)));
    let z = Mat4::from_scale(Vec3::new(1.0, 1.0, -1.0));
    let bone_left = z * bone_world * z;
    let body = m_to_glam(&rb.compute_body_matrix(&m_from_glam(bone_left)));
    let expected = Mat4::from_rotation_translation(Quat::IDENTITY, Vec3::new(0.0, 1.0, 0.0));
    assert!(body.abs_diff_eq(expected, 1e-5));
    // And the inverse direction recovers the bone frame.
    let bone_back = m_to_glam(&rb.compute_bone_matrix(&m_from_glam(expected)));
    assert!(bone_back.abs_diff_eq(bone_left, 1e-4));
}

#[test]
fn sync_bodies_emits_only_follow_bone_writes() {
    let config = PhysicsConfig::default();
    let mut bridge = MMDPhysics::new(&config);
    let bodies = vec![
        body_desc("kinematic", 0, RigidBodyMode::Static),
        body_desc("dynamic", 1, RigidBodyMode::Dynamic),
        body_desc("unbound", -1, RigidBodyMode::Static),
    ];
    let joints: Vec<JointDesc> = Vec::new();
    let bone_transforms = vec![
        m_from_glam(Mat4::from_translation(Vec3::new(0.0, 2.0, 0.0))),
        m_from_glam(Mat4::IDENTITY),
    ];
    bridge.build_physics(&bodies, &joints, &bone_transforms, true);
    let writes = bridge.sync_bodies(&bone_transforms);
    assert_eq!(writes.len(), 1);
    assert_eq!(writes[0].0, 0);
    assert_eq!(bridge.get_dynamic_bone_indices().as_slice(), &[1usize]);
    let (dt, substeps, fixed) = bridge.step_parameters((1.0f32 / 60.0).to_bits());
    assert_eq!(substeps, 4);
    assert_eq!(f32::from_bits(fixed), 1.0 / 60.0);
    assert_eq!(f32::from_bits(dt), 1.0 / 60.0);
}

#[test]
fn sync_bones_converts_back_to_the_skeleton_frame() {
    let config = PhysicsConfig::default();
    let mut bridge = MMDPhysics::new(&config);
    let bodies = vec![body_desc("dynamic", 0, RigidBodyMode::Dynamic)];
    let joints: Vec<JointDesc> = Vec::new();
    let bone_transforms = vec![m_from_glam(Mat4::IDENTITY)];
    bridge.build_physics(&bodies, &joints, &bone_transforms, true);
    // The solver reports the body moved up by one.
    let body_now = Mat4::from_translation(Vec3::new(0.0, 2.0, 0.0));
    let mut bones_now = vec![m_from_glam(Mat4::IDENTITY)];
    bridge.sync_bones(&vec![m_from_glam(body_now)], &mut bones_now);
    let got = m_to_glam(&bones_now[0]);
    // body * offset^-1 pulled back through the z flip.
    let z = Mat4::from_scale(Vec3::new(1.0, 1.0, -1.0));
    let offset_inv = m_to_glam(&bridge.rigid_bodies[0].body_offset_matrix_inverse);
    let expected = z * (body_now * offset_inv) * z;
    assert!(got.abs_diff_eq(expected, 1e-5));
}

#[test]
fn teardown_clears_every_counter() {
    // A hundred bodies and eighty constraints, ten ticks, then teardown:
    // all solver allocation counts land on zero.
    let config = PhysicsConfig::default();
    let mut bridge = MMDPhysics::new(&config);
    let mut bodies = Vec::new();
    for i in 0..100 {
        let mode = if i % 2 == 0 { RigidBodyMode::Static } else { RigidBodyMode::Dynamic };
        bodies.push(body_desc(&format!("body_{i}"), i as i32 % 4, mode));
    }
    let mut joints = Vec::new();
    for i in 0..80 {
        joints.push(joint_desc(&format!("joint_{i}"), i as i32, (i as i32) + 1));
    }
    let bone_transforms = vec![
        m_from_glam(Mat4::IDENTITY),
        m_from_glam(Mat4::from_translation(Vec3::Y)),
        m_from_glam(Mat4::from_translation(Vec3::X)),
        m_from_glam(Mat4::from_translation(Vec3::Z)),
    ];
    bridge.build_physics(&bodies, &joints, &bone_transforms, true);
    assert_eq!(bridge.rigid_body_count(), 100);
    assert_eq!(bridge.joint_count(), 80);
    let stats = bridge.alloc_stats();
    assert_eq!(stats.worlds, 1);
    assert_eq!(stats.shapes, 100);
    assert_eq!(stats.rigid_bodies, 100);
    assert_eq!(stats.motion_states, 100);
    assert_eq!(stats.constraints, 80);

    let body_now: Vec<M4> = (0..100).map(|_| m_from_glam(Mat4::IDENTITY)).collect();
    for _ in 0..10 {
        let _writes = bridge.sync_bodies(&bone_transforms);
        let _params = bridge.step_parameters((1.0f32 / 60.0).to_bits());
        let mut bones_now = bone_transforms.clone();
        bridge.sync_bones(&body_now, &mut bones_now);
    }

    let after = bridge.dispose();
    assert!(after.is_clean());
    assert_eq!(after.worlds, 0);
    assert_eq!(after.shapes, 0);
    assert_eq!(after.rigid_bodies, 0);
    assert_eq!(after.constraints, 0);
    assert_eq!(after.motion_states, 0);
}

#[test]
fn joints_with_bad_indices_are_skipped() {
    let config = PhysicsConfig::default();
    let mut bridge = MMDPhysics::new(&config);
    let bodies = vec![
        body_desc("a", -1, RigidBodyMode::Dynamic),
        body_desc("b", -1, RigidBodyMode::Dynamic),
    ];
    let joints = vec![
        joint_desc("good", 0, 1),
        joint_desc("self", 1, 1),
        joint_desc("out", 0, 9),
        joint_desc("negative", -1, 1),
    ];
    let bone_transforms: Vec<M4> = Vec::new();
    bridge.build_physics(&bodies, &joints, &bone_transforms, true);
    assert_eq!(bridge.joint_count(), 1);
    // Linear springs come on only where the stiffness magnitude clears the
    // threshold; angular springs always do.
    assert_eq!(bridge.joints[0].linear_spring_enabled, [false, true, false]);
    let after = bridge.dispose();
    assert!(after.is_clean());
}
