//! Skeleton construction, transform propagation and skinning.

use glam::{Mat4, Quat, Vec3};
use mmd_engine::algebra::{M4, Q4, V3};
use mmd_engine::bone::BoneLink;
use mmd_engine::bone_set::BoneSet;

fn v(x: f32, y: f32, z: f32) -> V3 {
    V3 { x: x.to_bits(), y: y.to_bits(), z: z.to_bits() }
}

fn m_to_glam(a: &M4) -> Mat4 {
    let mut c = [0f32; 16];
    for i in 0..16 {
        c[i] = f32::from_bits(a.m[i]);
    }
    Mat4::from_cols_array(&c)
}

fn chain_of_three() -> BoneSet {
    let mut set = BoneSet::new();
    set.add_bone("root".to_string(), BoneLink::new(-1, 0, v(0.0, 0.0, 0.0)));
    set.add_bone("mid".to_string(), BoneLink::new(0, 1, v(0.0, 1.0, 0.0)));
    set.add_bone("tip".to_string(), BoneLink::new(1, 2, v(0.0, 2.0, 0.0)));
    set.build_hierarchy();
    set
}

#[test]
fn hierarchy_checks_pass_on_a_chain() {
    let set = chain_of_three();
    assert!(set.hierarchy_ok);
    assert_eq!(set.bone_count(), 3);
    assert_eq!(set.find_bone_by_name(&"mid".to_string()), Some(1));
    assert_eq!(set.find_bone_by_name(&"nose".to_string()), None);
    // Bind offsets are differences of initial positions.
    assert_eq!(set.get_bone(1).unwrap().body_shift, v(0.0, 1.0, 0.0));
    assert_eq!(set.get_bone(0).unwrap().body_shift, v(0.0, 0.0, 0.0));
}

#[test]
fn hierarchy_checks_refuse_a_bad_level_order() {
    let mut set = BoneSet::new();
    // The child carries a lower level than its parent.
    set.add_bone("root".to_string(), BoneLink::new(-1, 5, v(0.0, 0.0, 0.0)));
    set.add_bone("child".to_string(), BoneLink::new(0, 1, v(1.0, 0.0, 0.0)));
    set.build_hierarchy();
    assert!(!set.hierarchy_ok);
}

#[test]
fn transforms_satisfy_the_hierarchy_equation() {
    // After any transform pass, every bone's world transform equals its
    // parent's times its local transform.
    let mut set = chain_of_three();
    set.begin_update();
    set.set_bone_rotation(0, {
        let q = Quat::from_rotation_z(0.5);
        let a = q.to_array();
        Q4 { x: a[0].to_bits(), y: a[1].to_bits(), z: a[2].to_bits(), w: a[3].to_bits() }
    });
    set.set_bone_translation(1, v(0.25, 0.0, 0.0));
    set.update_transforms(false);
    for i in 0..set.bone_count() {
        let b = set.get_bone(i).unwrap();
        let child = m_to_glam(&b.local_to_world);
        let expected = if b.parent_index >= 0 {
            let p = set.get_bone(b.parent_index as usize).unwrap();
            m_to_glam(&p.local_to_world) * m_to_glam(&b.local_to_parent)
        } else {
            m_to_glam(&b.local_to_parent)
        };
        assert!(child.abs_diff_eq(expected, 1e-5), "bone {i}");
    }
}

#[test]
fn skinning_matrix_takes_bind_pose_to_current_pose() {
    // skinning(B) * initial_position(B) equals local_to_world(B) * origin.
    let mut set = chain_of_three();
    set.begin_update();
    set.set_bone_rotation(0, {
        let q = Quat::from_rotation_x(0.3);
        let a = q.to_array();
        Q4 { x: a[0].to_bits(), y: a[1].to_bits(), z: a[2].to_bits(), w: a[3].to_bits() }
    });
    set.set_bone_translation(2, v(0.0, 0.5, 0.25));
    set.update_transforms(false);
    set.update_skinning_matrices();
    for i in 0..set.bone_count() {
        let b = set.get_bone(i).unwrap();
        let skin = m_to_glam(&set.get_skinning_matrices()[i]);
        let init = Vec3::new(
            f32::from_bits(b.initial_position.x),
            f32::from_bits(b.initial_position.y),
            f32::from_bits(b.initial_position.z),
        );
        let via_skin = skin.transform_point3(init);
        let world = m_to_glam(&b.local_to_world).transform_point3(Vec3::ZERO);
        assert!((via_skin - world).length() < 1e-4, "bone {i}");
    }
}

#[test]
fn physics_write_back_rederives_local_data() {
    let mut set = chain_of_three();
    set.begin_update();
    set.update_transforms(false);
    let target = Mat4::from_rotation_translation(Quat::from_rotation_y(0.7), Vec3::new(0.1, 1.2, -0.3));
    let cols = target.to_cols_array();
    let mut m = [0u32; 16];
    for i in 0..16 {
        m[i] = cols[i].to_bits();
    }
    set.set_global_transform_physics(1, M4 { m });
    let b = set.get_bone(1).unwrap();
    // The written world transform stands verbatim.
    assert_eq!(b.local_to_world.m, m);
    // The rederived local transform restores the hierarchy equation.
    let p = set.get_bone(0).unwrap();
    let recomposed = m_to_glam(&p.local_to_world) * m_to_glam(&b.local_to_parent);
    assert!(recomposed.abs_diff_eq(target, 1e-5));
}

#[test]
fn append_transform_copies_a_fraction_of_the_source() {
    let mut set = BoneSet::new();
    set.add_bone("source".to_string(), BoneLink::new(-1, 0, v(0.0, 0.0, 0.0)));
    let mut follower = BoneLink::new(0, 1, v(1.0, 0.0, 0.0));
    follower.is_append_translate = true;
    follower.append_config = Some(mmd_engine::bone::AppendConfig { parent: 0, rate: 0.5f32.to_bits() });
    set.add_bone("follower".to_string(), follower);
    set.build_hierarchy();
    set.begin_update();
    set.set_bone_translation(0, v(2.0, 0.0, 0.0));
    set.update_transforms(false);
    let b = set.get_bone(1).unwrap();
    // Half of the source's translation is inherited.
    assert_eq!(b.append_translate, v(1.0, 0.0, 0.0));
    let world = m_to_glam(&b.local_to_world).transform_point3(Vec3::ZERO);
    // bind offset (1) + source world shift (2) + inherited half (1).
    assert!((world - Vec3::new(4.0, 0.0, 0.0)).length() < 1e-5);
}
