//! The cyclic-coordinate-descent solver on a single-link chain.

use glam::Vec3;
use mmd_engine::algebra::V3;
use mmd_engine::bone::BoneLink;
use mmd_engine::bone_set::BoneSet;
use mmd_engine::ik::{IkConfig, IkLink, IkSolver};

fn v(x: f32, y: f32, z: f32) -> V3 {
    V3 { x: x.to_bits(), y: y.to_bits(), z: z.to_bits() }
}

fn world_pos(set: &BoneSet, i: usize) -> Vec3 {
    let b = set.get_bone(i).unwrap();
    Vec3::new(
        f32::from_bits(b.local_to_world.m[12]),
        f32::from_bits(b.local_to_world.m[13]),
        f32::from_bits(b.local_to_world.m[14]),
    )
}

#[test]
fn ccd_turns_a_single_link_onto_the_target() {
    // A link at the origin holds an effector at (0, 1, 0); the target bone
    // sits at (1, 0, 0). One chain link rotating about z must bring the
    // effector within a thousandth of the target in at most eight rounds.
    let mut set = BoneSet::new();
    set.add_bone("link".to_string(), BoneLink::new(-1, 0, v(0.0, 0.0, 0.0)));
    set.add_bone("effector".to_string(), BoneLink::new(0, 1, v(0.0, 1.0, 0.0)));
    let mut target = BoneLink::new(-1, 0, v(1.0, 0.0, 0.0));
    target.is_ik = true;
    set.add_bone("target".to_string(), target);
    set.build_hierarchy();
    assert!(set.hierarchy_ok);
    set.begin_update();

    let config = IkConfig {
        effector_bone: 1,
        iterations: 8,
        unit_angle: std::f32::consts::PI.to_bits(),
        links: vec![
            IkLink {
                bone_index: 0,
                has_limits: false,
                lower_limit: v(0.0, 0.0, 0.0),
                upper_limit: v(0.0, 0.0, 0.0),
            },
        ],
    };
    set.add_ik_solver(IkSolver::new(2, config));
    set.update_transforms(false);

    let effector = world_pos(&set, 1);
    let goal = world_pos(&set, 2);
    assert!((goal - Vec3::new(1.0, 0.0, 0.0)).length() < 1e-6);
    assert!((effector - goal).length() < 1e-3, "effector = {effector:?}");
}

#[test]
fn disabled_solver_leaves_the_chain_alone() {
    let mut set = BoneSet::new();
    set.add_bone("link".to_string(), BoneLink::new(-1, 0, v(0.0, 0.0, 0.0)));
    set.add_bone("effector".to_string(), BoneLink::new(0, 1, v(0.0, 1.0, 0.0)));
    let mut target = BoneLink::new(-1, 0, v(1.0, 0.0, 0.0));
    target.is_ik = true;
    set.add_bone("target".to_string(), target);
    set.build_hierarchy();
    set.begin_update();
    let config = IkConfig {
        effector_bone: 1,
        iterations: 8,
        unit_angle: std::f32::consts::PI.to_bits(),
        links: vec![
            IkLink {
                bone_index: 0,
                has_limits: false,
                lower_limit: v(0.0, 0.0, 0.0),
                upper_limit: v(0.0, 0.0, 0.0),
            },
        ],
    };
    set.add_ik_solver(IkSolver::new(2, config));
    set.set_ik_enabled(0, false);
    set.update_transforms(false);
    let effector = world_pos(&set, 1);
    assert!((effector - Vec3::new(0.0, 1.0, 0.0)).length() < 1e-6);
}
