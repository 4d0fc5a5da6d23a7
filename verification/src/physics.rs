//! The physics bridge: rigid-body and joint derivation, coordinate
//! conversion between the right-handed skeleton and the left-handed solver,
//! per-tick synchronisation, and a ledger of solver allocations whose
//! teardown provably removes constraints before bodies before the world.
//!
//! The solver itself is outside the bridge: `sync_bodies` computes what to
//! write into each kinematic body, `step_parameters` what to step with, and
//! `sync_bones` folds the transforms read back from the solver into the
//! skeleton, all as plain values.

use vstd::prelude::*;

use crate::algebra::{
    euler_xyz_of, euler_yxz_of, from_rt_of, inv_z, inverse_of, m4_from_rotation_translation,
    m4_inverse, m4_mul, matmul_of, q_from_euler_xyz, q_from_euler_yxz, spec_inv_z, M4, V3,
};
use crate::scalar::{fle, fneg, spec_is_nan, spec_le, spec_mag, spec_neg, MAG_MASK};

verus! {

/// IEEE 754 bit pattern of `1.0_f32`.
pub const PH_ONE: u32 = 0x3F80_0000;

/// IEEE 754 bit pattern of `1e-6_f32`: a linear spring whose stiffness
/// magnitude does not exceed it stays disabled.
pub const SPRING_STIFFNESS_EPSILON_BITS: u32 = 0x3586_37BD;

/// How a rigid body relates to its bone.
#[derive(Clone, Copy, Debug, PartialEq, Eq, Structural)]
pub enum PhysicsMode {
    /// Kinematic: the body follows the bone.
    FollowBone,
    /// Dynamic: the bone follows the body.
    Physics,
    /// Dynamic rotation, kinematic position.
    PhysicsWithBone,
}

/// The declared mode of a rigid body in the model data.
#[derive(Clone, Copy, Debug, PartialEq, Eq, Structural)]
pub enum RigidBodyMode {
    /// A static body following its bone.
    Static,
    /// A fully simulated body.
    Dynamic,
    /// A simulated body pinned to its bone's position.
    DynamicWithBonePosition,
}

/// The collision shape kinds.
#[derive(Clone, Copy, Debug, PartialEq, Eq, Structural)]
pub enum ShapeKind {
    /// A sphere of radius `size.x`.
    Sphere,
    /// A box of half extents `size`.
    Box,
    /// A capsule of radius `size.x` and height `size.y`.
    Capsule,
}

/// The physics mode derived from the declared one.
pub open spec fn spec_mode_of(mode: RigidBodyMode) -> PhysicsMode {
    match mode {
        RigidBodyMode::Static => PhysicsMode::FollowBone,
        RigidBodyMode::Dynamic => PhysicsMode::Physics,
        RigidBodyMode::DynamicWithBonePosition => PhysicsMode::PhysicsWithBone,
    }
}

/// A declared rigid body: the plain values the bridge derives its data
/// from.
#[derive(Clone, Debug)]
pub struct RigidBodyDesc {
    /// The body's name.
    pub name: String,
    /// The attached bone, negative for none.
    pub bone_index: i32,
    /// The declared mode.
    pub mode: RigidBodyMode,
    /// The collision shape kind.
    pub shape: ShapeKind,
    /// The shape extents.
    pub size: V3,
    /// The declared world position.
    pub position: V3,
    /// The declared rotation, Y-X-Z Euler radians.
    pub rotation: V3,
    /// Mass.
    pub mass: u32,
    /// Linear damping.
    pub move_attenuation: u32,
    /// Angular damping.
    pub rotation_attenuation: u32,
    /// Friction.
    pub friction: u32,
    /// Restitution.
    pub repulsion: u32,
    /// Collision group, clamped to 0..=15.
    pub group: u8,
    /// Collision mask.
    pub group_mask: u16,
}

/// A declared 6-DOF spring joint.
#[derive(Clone, Debug)]
pub struct JointDesc {
    /// The joint's name.
    pub name: String,
    /// First body.
    pub rigid_body_a_index: i32,
    /// Second body.
    pub rigid_body_b_index: i32,
    /// The joint's world position.
    pub position: V3,
    /// The joint's rotation, X-Y-Z Euler radians.
    pub rotation: V3,
    /// Per-axis lower linear limits.
    pub position_min: V3,
    /// Per-axis upper linear limits.
    pub position_max: V3,
    /// Per-axis lower angular limits.
    pub rotation_min: V3,
    /// Per-axis upper angular limits.
    pub rotation_max: V3,
    /// Per-axis linear spring stiffness.
    pub position_spring: V3,
    /// Per-axis angular spring stiffness.
    pub rotation_spring: V3,
}

/// Whether a linear spring axis with this stiffness is enabled: its
/// magnitude exceeds the threshold (the float comparison `|s| > 1e-6`;
/// NaNs leave the spring off).
pub open spec fn spec_spring_enabled(stiffness: u32) -> bool {
    !spec_is_nan(stiffness) && spec_mag(stiffness) > SPRING_STIFFNESS_EPSILON_BITS
}

/// Whether a linear spring axis with this stiffness is enabled.
pub fn spring_enabled(stiffness: u32) -> (r: bool)
    ensures
        r == spec_spring_enabled(stiffness),
{
    let m = stiffness & MAG_MASK;
    m <= crate::scalar::INF_BITS && m > SPRING_STIFFNESS_EPSILON_BITS
}

/// The collision group bit: one shifted by the group clamped to 0..=15.
pub open spec fn spec_collision_group(group: u8) -> i32 {
    1i32 << (if group > 15 {
        15i32
    } else {
        group as i32
    })
}

/// The collision group bit.
pub fn collision_group(group: u8) -> (r: i32)
    ensures
        r == spec_collision_group(group),
{
    let g: i32 = if group > 15 {
        15
    } else {
        group as i32
    };
    1i32 << g
}

/// The body's declared world transform: rotation from Y-X-Z Euler angles
/// times the declared position, no frame conversion.
pub open spec fn spec_body_world(desc_rotation: V3, desc_position: V3) -> M4 {
    from_rt_of(
        euler_yxz_of(desc_rotation.y, desc_rotation.x, desc_rotation.z),
        desc_position,
    )
}

/// Whether the declared shape has a non-positive extent, which disables
/// contact response.
pub open spec fn spec_zero_volume(shape: ShapeKind, size: V3) -> bool {
    match shape {
        ShapeKind::Sphere => spec_le(size.x, 0),
        ShapeKind::Box => spec_le(size.x, 0) || spec_le(size.y, 0) || spec_le(size.z, 0),
        ShapeKind::Capsule => spec_le(size.x, 0) || spec_le(size.y, 0),
    }
}

/// One rigid body of the bridge: the derived frames, the solver ledger
/// flags and the declared parameters it still needs.
#[derive(Clone, Debug)]
pub struct MmdRigidBodyData {
    /// The body's name.
    pub name: String,
    /// The attached bone, negative for none.
    pub bone_index: i32,
    /// The derived mode.
    pub physics_mode: PhysicsMode,
    /// Collision group.
    pub group: u8,
    /// Collision mask.
    pub group_mask: u16,
    /// Bind-time offset from the bone's left-handed frame to the body.
    pub body_offset_matrix: M4,
    /// Inverse of the offset.
    pub body_offset_matrix_inverse: M4,
    /// The body's declared world transform.
    pub initial_transform: M4,
    /// Mass.
    pub mass: u32,
    /// Linear damping.
    pub linear_damping: u32,
    /// Angular damping.
    pub angular_damping: u32,
    /// Friction.
    pub friction: u32,
    /// Restitution.
    pub restitution: u32,
    /// The collision shape kind.
    pub shape: ShapeKind,
    /// The shape extents.
    pub size: V3,
    /// Whether contact response is disabled for a degenerate shape.
    pub is_zero_volume: bool,
    /// Whether the solver holds a shape for this body.
    pub has_shape: bool,
    /// Whether the solver holds a body (and its motion state).
    pub has_body: bool,
    /// Whether the body is registered in the world.
    pub in_world: bool,
}

/// The derived rigid body for a descriptor and the attached bone's world
/// transform: the offset relates the bone's left-handed frame to the
/// declared body frame.
pub open spec fn spec_rigid_body_of(desc: RigidBodyDesc, bone_transform: Option<M4>) -> (
    MmdRigidBodyData
) {
    let rb_world = spec_body_world(desc.rotation, desc.position);
    let offset = match bone_transform {
        Some(bt) => matmul_of(inverse_of(spec_inv_z(bt)), rb_world),
        None => rb_world,
    };
    MmdRigidBodyData {
        name: desc.name,
        bone_index: desc.bone_index,
        physics_mode: spec_mode_of(desc.mode),
        group: desc.group,
        group_mask: desc.group_mask,
        body_offset_matrix: offset,
        body_offset_matrix_inverse: inverse_of(offset),
        initial_transform: rb_world,
        mass: desc.mass,
        linear_damping: desc.move_attenuation,
        angular_damping: desc.rotation_attenuation,
        friction: desc.friction,
        restitution: desc.repulsion,
        shape: desc.shape,
        size: desc.size,
        is_zero_volume: spec_zero_volume(desc.shape, desc.size),
        has_shape: false,
        has_body: false,
        in_world: false,
    }
}

impl MmdRigidBodyData {
    /// Derive a body from its descriptor and the attached bone's world
    /// transform.
    pub fn from_desc(desc: &RigidBodyDesc, bone_global_transform: Option<M4>) -> (r:
        MmdRigidBodyData)
        ensures
            r == spec_rigid_body_of(*desc, bone_global_transform),
    {
        let rotation = q_from_euler_yxz(desc.rotation.y, desc.rotation.x, desc.rotation.z);
        let rb_world = m4_from_rotation_translation(rotation, desc.position);
        let body_offset_matrix = match bone_global_transform {
            Some(bt) => {
                let bone_left = inv_z(&bt);
                m4_mul(&m4_inverse(&bone_left), &rb_world)
            },
            None => rb_world,
        };
        let body_offset_matrix_inverse = m4_inverse(&body_offset_matrix);
        let is_zero_volume = match desc.shape {
            ShapeKind::Sphere => fle(desc.size.x, 0),
            ShapeKind::Box => fle(desc.size.x, 0) || fle(desc.size.y, 0) || fle(desc.size.z, 0),
            ShapeKind::Capsule => fle(desc.size.x, 0) || fle(desc.size.y, 0),
        };
        MmdRigidBodyData {
            name: desc.name.clone(),
            bone_index: desc.bone_index,
            physics_mode: match desc.mode {
                RigidBodyMode::Static => PhysicsMode::FollowBone,
                RigidBodyMode::Dynamic => PhysicsMode::Physics,
                RigidBodyMode::DynamicWithBonePosition => PhysicsMode::PhysicsWithBone,
            },
            group: desc.group,
            group_mask: desc.group_mask,
            body_offset_matrix,
            body_offset_matrix_inverse,
            initial_transform: rb_world,
            mass: desc.mass,
            linear_damping: desc.move_attenuation,
            angular_damping: desc.rotation_attenuation,
            friction: desc.friction,
            restitution: desc.repulsion,
            shape: desc.shape,
            size: desc.size,
            is_zero_volume,
            has_shape: false,
            has_body: false,
            in_world: false,
        }
    }

    /// The body's world transform for a bone transform (both left-handed):
    /// the bone frame times the bind offset.
    pub fn compute_body_matrix(&self, bone_world_matrix: &M4) -> (r: M4)
        ensures
            r == matmul_of(*bone_world_matrix, self.body_offset_matrix),
    {
        m4_mul(bone_world_matrix, &self.body_offset_matrix)
    }

    /// The bone's transform for a body transform (both left-handed): the
    /// body frame times the inverse bind offset.
    pub fn compute_bone_matrix(&self, rb_matrix: &M4) -> (r: M4)
        ensures
            r == matmul_of(*rb_matrix, self.body_offset_matrix_inverse),
    {
        m4_mul(rb_matrix, &self.body_offset_matrix_inverse)
    }

    /// As `compute_bone_matrix`, with the translation replaced by the given
    /// position.
    pub fn compute_bone_matrix_rotation_only(&self, rb_matrix: &M4, bone_position: V3) -> (r: M4)
        ensures
            r == spec_with_translation(
                matmul_of(*rb_matrix, self.body_offset_matrix_inverse),
                bone_position,
            ),
    {
        let mut result = m4_mul(rb_matrix, &self.body_offset_matrix_inverse);
        let m = result.m;
        result.m = [
            m[0], m[1], m[2], m[3],
            m[4], m[5], m[6], m[7],
            m[8], m[9], m[10], m[11],
            bone_position.x, bone_position.y, bone_position.z, m[15],
        ];
        result
    }
}

/// The matrix with its translation column replaced.
pub open spec fn spec_with_translation(a: M4, t: V3) -> M4 {
    M4 {
        m: [
            a.m[0], a.m[1], a.m[2], a.m[3],
            a.m[4], a.m[5], a.m[6], a.m[7],
            a.m[8], a.m[9], a.m[10], a.m[11],
            t.x, t.y, t.z, a.m[15],
        ],
    }
}

/// One joint of the bridge: the derived constraint frames, the per-axis
/// limits and springs, and the ledger flags.
#[derive(Clone, Debug)]
pub struct MmdJointData {
    /// The joint's name.
    pub name: String,
    /// First body.
    pub rigid_body_a_index: i32,
    /// Second body.
    pub rigid_body_b_index: i32,
    /// The constraint frame in body A's space.
    pub frame_a: M4,
    /// The constraint frame in body B's space.
    pub frame_b: M4,
    /// Per-axis lower linear limits.
    pub linear_lower_limit: V3,
    /// Per-axis upper linear limits.
    pub linear_upper_limit: V3,
    /// Per-axis lower angular limits.
    pub angular_lower_limit: V3,
    /// Per-axis upper angular limits.
    pub angular_upper_limit: V3,
    /// Per-axis linear spring stiffness.
    pub linear_stiffness: V3,
    /// Per-axis angular spring stiffness.
    pub angular_stiffness: V3,
    /// Whether each linear axis spring is enabled.
    pub linear_spring_enabled: [bool; 3],
    /// Whether the solver holds this constraint.
    pub has_constraint: bool,
    /// Whether the constraint is registered in the world.
    pub in_world: bool,
}

/// The joint's bind transform: rotation from X-Y-Z Euler angles times the
/// declared position.
pub open spec fn spec_joint_transform(desc: JointDesc) -> M4 {
    from_rt_of(euler_xyz_of(desc.rotation.x, desc.rotation.y, desc.rotation.z), desc.position)
}

/// The derived joint for a descriptor and the two bodies' declared world
/// transforms: each constraint frame is the body's inverse bind transform
/// times the joint transform; a linear axis spring is enabled exactly when
/// its stiffness magnitude exceeds the threshold.
pub open spec fn spec_joint_of(desc: JointDesc, a_init: M4, b_init: M4) -> MmdJointData {
    MmdJointData {
        name: desc.name,
        rigid_body_a_index: desc.rigid_body_a_index,
        rigid_body_b_index: desc.rigid_body_b_index,
        frame_a: matmul_of(inverse_of(a_init), spec_joint_transform(desc)),
        frame_b: matmul_of(inverse_of(b_init), spec_joint_transform(desc)),
        linear_lower_limit: desc.position_min,
        linear_upper_limit: desc.position_max,
        angular_lower_limit: desc.rotation_min,
        angular_upper_limit: desc.rotation_max,
        linear_stiffness: desc.position_spring,
        angular_stiffness: desc.rotation_spring,
        linear_spring_enabled: [
            spec_spring_enabled(desc.position_spring.x),
            spec_spring_enabled(desc.position_spring.y),
            spec_spring_enabled(desc.position_spring.z),
        ],
        has_constraint: false,
        in_world: false,
    }
}

impl MmdJointData {
    /// Derive a joint from its descriptor and the two bodies' declared
    /// world transforms: each constraint frame is the body's inverse bind
    /// transform times the joint transform; a linear axis spring is
    /// enabled exactly when its stiffness magnitude exceeds the threshold,
    /// while angular springs are always enabled.
    pub fn from_desc(desc: &JointDesc, rb_a_initial_transform: &M4, rb_b_initial_transform: &M4)
        -> (r: MmdJointData)
        ensures
            r == spec_joint_of(*desc, *rb_a_initial_transform, *rb_b_initial_transform),
    {
        let rotation = q_from_euler_xyz(desc.rotation.x, desc.rotation.y, desc.rotation.z);
        let joint_transform = m4_from_rotation_translation(rotation, desc.position);
        let frame_a = m4_mul(&m4_inverse(rb_a_initial_transform), &joint_transform);
        let frame_b = m4_mul(&m4_inverse(rb_b_initial_transform), &joint_transform);
        MmdJointData {
            name: desc.name.clone(),
            rigid_body_a_index: desc.rigid_body_a_index,
            rigid_body_b_index: desc.rigid_body_b_index,
            frame_a,
            frame_b,
            linear_lower_limit: desc.position_min,
            linear_upper_limit: desc.position_max,
            angular_lower_limit: desc.rotation_min,
            angular_upper_limit: desc.rotation_max,
            linear_stiffness: desc.position_spring,
            angular_stiffness: desc.rotation_spring,
            linear_spring_enabled: [
                spring_enabled(desc.position_spring.x),
                spring_enabled(desc.position_spring.y),
                spring_enabled(desc.position_spring.z),
            ],
            has_constraint: false,
            in_world: false,
        }
    }
}

/// Live counts of the solver-side allocations.
#[derive(Clone, Copy, Debug, PartialEq, Eq, Structural)]
pub struct BulletAllocStats {
    /// Live worlds.
    pub worlds: i32,
    /// Live collision shapes.
    pub shapes: i32,
    /// Live rigid bodies.
    pub rigid_bodies: i32,
    /// Live constraints.
    pub constraints: i32,
    /// Live motion states.
    pub motion_states: i32,
}

impl BulletAllocStats {
    /// Whether every count is zero.
    pub open spec fn is_clean_spec(self) -> bool {
        self.worlds == 0 && self.shapes == 0 && self.rigid_bodies == 0 && self.constraints == 0
            && self.motion_states == 0
    }

    /// Whether every count is zero.
    pub fn is_clean(&self) -> (r: bool)
        ensures
            r == (self.worlds == 0 && self.shapes == 0 && self.rigid_bodies == 0
                && self.constraints == 0 && self.motion_states == 0),
    {
        self.worlds == 0 && self.shapes == 0 && self.rigid_bodies == 0 && self.constraints == 0
            && self.motion_states == 0
    }
}

/// Number of bodies holding a solver shape.
pub open spec fn spec_count_shapes(s: Seq<MmdRigidBodyData>) -> int
    decreases s.len(),
{
    if s.len() == 0 {
        0
    } else {
        spec_count_shapes(s.drop_last()) + if s.last().has_shape {
            1int
        } else {
            0int
        }
    }
}

/// Number of bodies holding a solver body.
pub open spec fn spec_count_bodies(s: Seq<MmdRigidBodyData>) -> int
    decreases s.len(),
{
    if s.len() == 0 {
        0
    } else {
        spec_count_bodies(s.drop_last()) + if s.last().has_body {
            1int
        } else {
            0int
        }
    }
}

/// Number of joints holding a solver constraint.
pub open spec fn spec_count_constraints(s: Seq<MmdJointData>) -> int
    decreases s.len(),
{
    if s.len() == 0 {
        0
    } else {
        spec_count_constraints(s.drop_last()) + if s.last().has_constraint {
            1int
        } else {
            0int
        }
    }
}



/// The bones owned by dynamic bodies, from index `i` on: one entry per
/// body that is not follow-bone and names a nonnegative bone, in body
/// order.
pub open spec fn spec_dynamic_bones(rbs: Seq<MmdRigidBodyData>, i: int) -> Seq<usize>
    decreases rbs.len() - i,
{
    if i < 0 || i >= rbs.len() {
        Seq::empty()
    } else {
        let rest = spec_dynamic_bones(rbs, i + 1);
        if rbs[i].physics_mode != PhysicsMode::FollowBone && rbs[i].bone_index >= 0 {
            seq![rbs[i].bone_index as usize] + rest
        } else {
            rest
        }
    }
}

/// Whether a joint descriptor is accepted against the derived bodies: both
/// indices in range, distinct, and both bodies live in the solver.
pub open spec fn spec_joint_accepted(desc: JointDesc, rbs: Seq<MmdRigidBodyData>) -> bool {
    &&& desc.rigid_body_a_index >= 0
    &&& desc.rigid_body_b_index >= 0
    &&& (desc.rigid_body_a_index as int) < rbs.len()
    &&& (desc.rigid_body_b_index as int) < rbs.len()
    &&& desc.rigid_body_a_index != desc.rigid_body_b_index
    &&& rbs[desc.rigid_body_a_index as int].has_body
    &&& rbs[desc.rigid_body_b_index as int].has_body
}

/// The joints derived from the descriptors from index `j` on: one live,
/// registered joint per accepted descriptor, in input order.
pub open spec fn spec_derived_joints(
    descs: Seq<JointDesc>,
    rbs: Seq<MmdRigidBodyData>,
    j: int,
) -> Seq<MmdJointData>
    decreases descs.len() - j,
{
    if j < 0 || j >= descs.len() {
        Seq::empty()
    } else {
        let rest = spec_derived_joints(descs, rbs, j + 1);
        if spec_joint_accepted(descs[j], rbs) {
            seq![
                MmdJointData {
                    has_constraint: true,
                    in_world: true,
                    ..spec_joint_of(
                        descs[j],
                        rbs[descs[j].rigid_body_a_index as int].initial_transform,
                        rbs[descs[j].rigid_body_b_index as int].initial_transform,
                    )
                },
            ] + rest
        } else {
            rest
        }
    }
}

/// The kinematic write commands a synchronisation pass emits from index
/// `i` on: one `(body index, transform)` pair per follow-bone body with a
/// live solver body and a bone inside the skeleton, whose value is the
/// bone's left-handed frame times the bind offset.
pub open spec fn spec_sync_body_commands(
    rbs: Seq<MmdRigidBodyData>,
    bts: Seq<M4>,
    i: int,
) -> Seq<(usize, M4)>
    decreases rbs.len() - i,
{
    if i < 0 || i >= rbs.len() {
        Seq::empty()
    } else {
        let rest = spec_sync_body_commands(rbs, bts, i + 1);
        if rbs[i].physics_mode == PhysicsMode::FollowBone && rbs[i].has_body && 0 <= rbs[i].bone_index && (rbs[i].bone_index as int) < bts.len() {
            seq![
                (
                    i as usize,
                    matmul_of(
                        spec_inv_z(bts[rbs[i].bone_index as int]),
                        rbs[i].body_offset_matrix,
                    ),
                ),
            ] + rest
        } else {
            rest
        }
    }
}

/// The skeleton transforms after folding the solver read-back from index
/// `i` on: each dynamic body with a live solver body and a bone inside the
/// skeleton writes its bone; a fully dynamic body writes the converted
/// body frame times the inverse offset, a position-pinned one keeps the
/// bone's translation (Z-flipped into the left-handed frame) and takes
/// only the rotation.
pub open spec fn spec_sync_bones_fold(
    rbs: Seq<MmdRigidBodyData>,
    body_ts: Seq<M4>,
    bts: Seq<M4>,
    i: int,
) -> Seq<M4>
    decreases rbs.len() - i,
{
    if i < 0 || i >= rbs.len() {
        bts
    } else {
        let cur = if rbs[i].physics_mode != PhysicsMode::FollowBone && rbs[i].has_body && 0 <= rbs[i].bone_index && (rbs[i].bone_index as int) < bts.len() && i < body_ts.len() {
            let bone = rbs[i].bone_index as int;
            let rb_left = body_ts[i];
            let new_bone_left = if rbs[i].physics_mode == PhysicsMode::Physics {
                matmul_of(rb_left, rbs[i].body_offset_matrix_inverse)
            } else {
                let bone_right = bts[bone];
                spec_with_translation(
                    matmul_of(rb_left, rbs[i].body_offset_matrix_inverse),
                    V3 {
                        x: bone_right.m[12],
                        y: bone_right.m[13],
                        z: spec_neg(bone_right.m[14]),
                    },
                )
            };
            bts.update(bone, spec_inv_z(new_bone_left))
        } else {
            bts
        };
        spec_sync_bones_fold(rbs, body_ts, cur, i + 1)
    }
}

/// The physics bridge: the derived bodies and joints, the solver ledger,
/// and the per-tick synchronisation passes.
pub struct MMDPhysics {
    /// The derived joints.
    pub joints: Vec<MmdJointData>,
    /// The derived bodies.
    pub rigid_bodies: Vec<MmdRigidBodyData>,
    /// Whether the solver world is alive.
    pub world_alive: bool,
    /// Simulation rate, steps per second.
    pub fps: u32,
    /// Largest number of substeps per tick.
    pub max_substep_count: i32,
    /// Bones owned by dynamic bodies.
    pub dynamic_bone_indices: Vec<usize>,
    /// Live counts of the solver allocations.
    pub stats: BulletAllocStats,
}

impl MMDPhysics {
    /// Ledger soundness: the counters agree with the per-entity flags, and
    /// nothing is registered in a dead world.
    pub open spec fn wf(self) -> bool {
        &&& self.stats.worlds == if self.world_alive {
            1int
        } else {
            0int
        }
        &&& self.stats.shapes == spec_count_shapes(self.rigid_bodies@)
        &&& self.stats.rigid_bodies == spec_count_bodies(self.rigid_bodies@)
        &&& self.stats.motion_states == spec_count_bodies(self.rigid_bodies@)
        &&& self.stats.constraints == spec_count_constraints(self.joints@)
    }

    /// A bridge with a live, empty world.
    pub fn new(config: &crate::config::PhysicsConfig) -> (r: MMDPhysics)
        ensures
            r.wf(),
            r.rigid_bodies@.len() == 0,
            r.joints@.len() == 0,
            r.world_alive,
            r.fps == config.physics_fps,
            r.max_substep_count == config.max_substep_count,
            r.stats == (BulletAllocStats {
                worlds: 1,
                shapes: 0,
                rigid_bodies: 0,
                constraints: 0,
                motion_states: 0,
            }),
    {
        MMDPhysics {
            joints: Vec::new(),
            rigid_bodies: Vec::new(),
            world_alive: true,
            fps: config.physics_fps,
            max_substep_count: config.max_substep_count,
            dynamic_bone_indices: Vec::new(),
            stats: BulletAllocStats {
                worlds: 1,
                shapes: 0,
                rigid_bodies: 0,
                constraints: 0,
                motion_states: 0,
            },
        }
    }

    /// Number of derived bodies.
    pub fn rigid_body_count(&self) -> (r: usize)
        ensures
            r == self.rigid_bodies@.len(),
    {
        self.rigid_bodies.len()
    }

    /// Number of derived joints.
    pub fn joint_count(&self) -> (r: usize)
        ensures
            r == self.joints@.len(),
    {
        self.joints.len()
    }

    /// The live solver allocation counts.
    pub fn alloc_stats(&self) -> (r: BulletAllocStats)
        ensures
            r == self.stats,
    {
        self.stats
    }

    /// The bones owned by dynamic bodies.
    pub fn get_dynamic_bone_indices(&self) -> (r: &Vec<usize>)
        ensures
            r@ == self.dynamic_bone_indices@,
    {
        &self.dynamic_bone_indices
    }

    /// Build every body and joint: derive each body from its descriptor
    /// and its bone's bind transform, register it with the world, derive
    /// each joint whose two bodies exist and differ, and collect the bones
    /// owned by dynamic bodies. Every derived entity is accounted in the
    /// ledger.
    pub fn build_physics(
        &mut self,
        body_descs: &Vec<RigidBodyDesc>,
        joint_descs: &Vec<JointDesc>,
        bone_transforms: &Vec<M4>,
        joints_enabled: bool,
    )
        requires
            old(self).wf(),
            old(self).rigid_bodies@.len() == 0,
            old(self).joints@.len() == 0,
            body_descs@.len() <= 0x3FFF_FFFF,
            joint_descs@.len() <= 0x3FFF_FFFF,
        ensures
            final(self).wf(),
            final(self).rigid_bodies@.len() == body_descs@.len(),
            forall|i: int|
                0 <= i < body_descs@.len() ==> #[trigger] final(self).rigid_bodies@[i]
                    == (MmdRigidBodyData {
                    has_shape: true,
                    has_body: true,
                    in_world: true,
                    ..spec_rigid_body_of(
                        body_descs@[i],
                        if 0 <= body_descs@[i].bone_index && (body_descs@[i].bone_index as int)
                            < bone_transforms@.len() {
                            Some(bone_transforms@[body_descs@[i].bone_index as int])
                        } else {
                            None
                        },
                    )
                }),
            !joints_enabled ==> final(self).joints@.len() == 0,
            joints_enabled ==> final(self).joints@ == spec_derived_joints(
                joint_descs@,
                final(self).rigid_bodies@,
                0,
            ),
            final(self).dynamic_bone_indices@ == spec_dynamic_bones(final(self).rigid_bodies@, 0),
    {
        let n = body_descs.len();
        let mut i: usize = 0;
        while i < n
            invariant
                n == body_descs@.len(),
                n <= 0x3FFF_FFFF,
                i <= n,
                self.wf(),
                self.joints@.len() == 0,
                self.world_alive == old(self).world_alive,
                self.fps == old(self).fps,
                self.max_substep_count == old(self).max_substep_count,
                self.rigid_bodies@.len() == i,
                forall|j: int|
                    0 <= j < i ==> #[trigger] self.rigid_bodies@[j] == (MmdRigidBodyData {
                        has_shape: true,
                        has_body: true,
                        in_world: true,
                        ..spec_rigid_body_of(
                            body_descs@[j],
                            if 0 <= body_descs@[j].bone_index && (body_descs@[j].bone_index as int)
                                < bone_transforms@.len() {
                                Some(bone_transforms@[body_descs@[j].bone_index as int])
                            } else {
                                None
                            },
                        )
                    }),
            decreases n - i,
        {
            let desc = &body_descs[i];
            let bone_transform: Option<M4> = if desc.bone_index >= 0 && (desc.bone_index as usize)
                < bone_transforms.len() {
                Some(bone_transforms[desc.bone_index as usize])
            } else {
                None
            };
            let mut rb = MmdRigidBodyData::from_desc(desc, bone_transform);
            rb.has_shape = true;
            rb.has_body = true;
            rb.in_world = true;
            let ghost rbs0 = self.rigid_bodies@;
            proof {
                lemma_count_bounds_rb(rbs0);
            }
            self.rigid_bodies.push(rb);
            self.stats.shapes = self.stats.shapes + 1;
            self.stats.rigid_bodies = self.stats.rigid_bodies + 1;
            self.stats.motion_states = self.stats.motion_states + 1;
            proof {
                assert(self.rigid_bodies@.drop_last() =~= rbs0);
            }
            i = i + 1;
        }

        if joints_enabled {
            let nj = joint_descs.len();
            let mut j: usize = 0;
            while j < nj
                invariant
                    nj == joint_descs@.len(),
                    j <= nj,
                    nj <= 0x3FFF_FFFF,
                    self.joints@.len() <= j,
                    spec_derived_joints(joint_descs@, self.rigid_bodies@, 0) == self.joints@
                        + spec_derived_joints(joint_descs@, self.rigid_bodies@, j as int),
                    self.wf(),
                    self.world_alive == old(self).world_alive,
                    self.fps == old(self).fps,
                    self.max_substep_count == old(self).max_substep_count,
                    self.rigid_bodies@.len() == n,
                    n == body_descs@.len(),
                    forall|j2: int|
                        0 <= j2 < n ==> #[trigger] self.rigid_bodies@[j2] == (MmdRigidBodyData {
                            has_shape: true,
                            has_body: true,
                            in_world: true,
                            ..spec_rigid_body_of(
                                body_descs@[j2],
                                if 0 <= body_descs@[j2].bone_index && (body_descs@[j2].bone_index
                                    as int) < bone_transforms@.len() {
                                    Some(bone_transforms@[body_descs@[j2].bone_index as int])
                                } else {
                                    None
                                },
                            )
                        }),
                decreases nj - j,
            {
                let ghost pre_joints = self.joints@;
                let jd = &joint_descs[j];
                let a_idx = jd.rigid_body_a_index;
                let b_idx = jd.rigid_body_b_index;
                let mut accepted = false;
                if a_idx >= 0 && b_idx >= 0 && (a_idx as usize) < self.rigid_bodies.len() && (b_idx
                    as usize) < self.rigid_bodies.len() && a_idx != b_idx {
                    let a_has = self.rigid_bodies[a_idx as usize].has_body;
                    let b_has = self.rigid_bodies[b_idx as usize].has_body;
                    if a_has && b_has {
                        accepted = true;
                        let a_init = self.rigid_bodies[a_idx as usize].initial_transform;
                        let b_init = self.rigid_bodies[b_idx as usize].initial_transform;
                        let mut joint = MmdJointData::from_desc(jd, &a_init, &b_init);
                        joint.has_constraint = true;
                        joint.in_world = true;
                        let ghost js0 = self.joints@;
                        proof {
                            lemma_count_bounds_joint(js0);
                        }
                        self.joints.push(joint);
                        self.stats.constraints = self.stats.constraints + 1;
                        proof {
                            assert(self.joints@.drop_last() =~= js0);
                        }
                    }
                }
                proof {
                    assert(accepted == spec_joint_accepted(
                        joint_descs@[j as int],
                        self.rigid_bodies@,
                    ));
                    if accepted {
                        assert(self.joints@ =~= pre_joints + seq![
                            MmdJointData {
                                has_constraint: true,
                                in_world: true,
                                ..spec_joint_of(
                                    joint_descs@[j as int],
                                    self.rigid_bodies@[joint_descs@[j as int].rigid_body_a_index
                                        as int].initial_transform,
                                    self.rigid_bodies@[joint_descs@[j as int].rigid_body_b_index
                                        as int].initial_transform,
                                )
                            },
                        ]);
                        assert(pre_joints + (seq![
                            MmdJointData {
                                has_constraint: true,
                                in_world: true,
                                ..spec_joint_of(
                                    joint_descs@[j as int],
                                    self.rigid_bodies@[joint_descs@[j as int].rigid_body_a_index
                                        as int].initial_transform,
                                    self.rigid_bodies@[joint_descs@[j as int].rigid_body_b_index
                                        as int].initial_transform,
                                )
                            },
                        ] + spec_derived_joints(joint_descs@, self.rigid_bodies@, j as int + 1))
                            =~= self.joints@ + spec_derived_joints(
                            joint_descs@,
                            self.rigid_bodies@,
                            j as int + 1,
                        ));
                    }
                }
                j = j + 1;
            }
            proof {
                assert(self.joints@ + spec_derived_joints(
                    joint_descs@,
                    self.rigid_bodies@,
                    nj as int,
                ) =~= self.joints@);
            }
        }

        // Collect the bones owned by dynamic bodies.
        let ghost mid = *self;
        let mut dynamic_bones: Vec<usize> = Vec::new();
        let mut k: usize = 0;
        while k < self.rigid_bodies.len()
            invariant
                *self == mid,
                k <= self.rigid_bodies@.len(),
                spec_dynamic_bones(self.rigid_bodies@, 0) == dynamic_bones@ + spec_dynamic_bones(
                    self.rigid_bodies@,
                    k as int,
                ),
            decreases self.rigid_bodies@.len() - k,
        {
            let ghost pre = dynamic_bones@;
            let rb_mode = self.rigid_bodies[k].physics_mode;
            let rb_bone = self.rigid_bodies[k].bone_index;
            if !(rb_mode == PhysicsMode::FollowBone) && rb_bone >= 0 {
                dynamic_bones.push(rb_bone as usize);
                proof {
                    assert(pre + (seq![rb_bone as usize] + spec_dynamic_bones(
                        self.rigid_bodies@,
                        k as int + 1,
                    )) =~= dynamic_bones@ + spec_dynamic_bones(
                        self.rigid_bodies@,
                        k as int + 1,
                    ));
                }
            }
            k = k + 1;
        }
        proof {
            assert(dynamic_bones@ + spec_dynamic_bones(
                self.rigid_bodies@,
                self.rigid_bodies@.len() as int,
            ) =~= dynamic_bones@);
        }
        self.dynamic_bone_indices = dynamic_bones;
    }

    /// The kinematic writes of this tick: for every follow-bone body with
    /// a live solver body and a bone inside the skeleton, the bone's
    /// left-handed frame times the bind offset.
    pub fn sync_bodies(&self, bone_transforms: &Vec<M4>) -> (r: Vec<(usize, M4)>)
        ensures
            r@ == spec_sync_body_commands(self.rigid_bodies@, bone_transforms@, 0),
    {
        let n = self.rigid_bodies.len();
        let ghost rbs = self.rigid_bodies@;
        let ghost bts = bone_transforms@;
        let mut out: Vec<(usize, M4)> = Vec::new();
        let mut i: usize = 0;
        while i < n
            invariant
                n == rbs.len(),
                rbs == self.rigid_bodies@,
                bts == bone_transforms@,
                i <= n,
                spec_sync_body_commands(rbs, bts, 0) == out@ + spec_sync_body_commands(
                    rbs,
                    bts,
                    i as int,
                ),
            decreases n - i,
        {
            let rb = &self.rigid_bodies[i];
            let ghost pre = out@;
            if rb.physics_mode == PhysicsMode::FollowBone && rb.has_body && rb.bone_index >= 0 && (
            rb.bone_index as usize) < bone_transforms.len() {
                let bone_left = inv_z(&bone_transforms[rb.bone_index as usize]);
                let body_matrix = rb.compute_body_matrix(&bone_left);
                out.push((i, body_matrix));
                proof {
                    let single = seq![
                        (
                            i as usize,
                            matmul_of(
                                spec_inv_z(bts[rbs[i as int].bone_index as int]),
                                rbs[i as int].body_offset_matrix,
                            ),
                        ),
                    ];
                    assert(spec_sync_body_commands(rbs, bts, i as int) == single
                        + spec_sync_body_commands(rbs, bts, i as int + 1));
                    assert(out@ =~= pre + single);
                    assert(pre + (single + spec_sync_body_commands(rbs, bts, i as int + 1)) =~= (
                    pre + single) + spec_sync_body_commands(rbs, bts, i as int + 1));
                }
            } else {
                proof {
                    assert(spec_sync_body_commands(rbs, bts, i as int)
                        == spec_sync_body_commands(rbs, bts, i as int + 1));
                }
            }
            i = i + 1;
        }
        proof {
            assert(spec_sync_body_commands(rbs, bts, n as int) == Seq::<(usize, M4)>::empty());
            assert(out@ + Seq::<(usize, M4)>::empty() =~= out@);
        }
        out
    }

    /// The step parameters of this tick: the elapsed time, the substep
    /// cap, and the fixed step `1 / fps`.
    pub fn step_parameters(&self, delta_time: u32) -> (r: (u32, i32, u32))
        ensures
            r.0 == delta_time,
            r.1 == self.max_substep_count,
            r.2 == crate::scalar::div_bits(PH_ONE, self.fps),
    {
        (delta_time, self.max_substep_count, crate::scalar::fdiv(PH_ONE, self.fps))
    }

    /// Fold the transforms read back from the solver into the skeleton:
    /// every dynamic body with a live solver body and a bone inside the
    /// skeleton writes its bone, converted back to the right-handed frame.
    pub fn sync_bones(&self, body_transforms: &Vec<M4>, bone_transforms: &mut Vec<M4>)
        ensures
            final(bone_transforms)@ == spec_sync_bones_fold(
                self.rigid_bodies@,
                body_transforms@,
                old(bone_transforms)@,
                0,
            ),
            final(bone_transforms)@.len() == old(bone_transforms)@.len(),
    {
        let n = self.rigid_bodies.len();
        let ghost rbs = self.rigid_bodies@;
        let ghost body_ts = body_transforms@;
        let ghost bts0 = old(bone_transforms)@;
        let mut i: usize = 0;
        while i < n
            invariant
                n == rbs.len(),
                rbs == self.rigid_bodies@,
                body_ts == body_transforms@,
                i <= n,
                bone_transforms@.len() == bts0.len(),
                spec_sync_bones_fold(rbs, body_ts, bts0, 0) == spec_sync_bones_fold(
                    rbs,
                    body_ts,
                    bone_transforms@,
                    i as int,
                ),
            decreases n - i,
        {
            let rb = &self.rigid_bodies[i];
            let ghost pre = bone_transforms@;
            if !(rb.physics_mode == PhysicsMode::FollowBone) && rb.has_body && rb.bone_index >= 0
                && (rb.bone_index as usize) < bone_transforms.len() && i < body_transforms.len() {
                let bone_idx = rb.bone_index as usize;
                let rb_matrix = body_transforms[i];
                let new_bone_left: M4 = if rb.physics_mode == PhysicsMode::Physics {
                    rb.compute_bone_matrix(&rb_matrix)
                } else {
                    let bone_right = bone_transforms[bone_idx];
                    let pos_left = V3 {
                        x: bone_right.m[12],
                        y: bone_right.m[13],
                        z: fneg(bone_right.m[14]),
                    };
                    rb.compute_bone_matrix_rotation_only(&rb_matrix, pos_left)
                };
                let converted = inv_z(&new_bone_left);
                bone_transforms.set(bone_idx, converted);
            }
            proof {
                assert(spec_sync_bones_fold(rbs, body_ts, pre, i as int) == spec_sync_bones_fold(
                    rbs,
                    body_ts,
                    bone_transforms@,
                    i as int + 1,
                ));
            }
            i = i + 1;
        }
        proof {
            assert(spec_sync_bones_fold(rbs, body_ts, bone_transforms@, n as int)
                == bone_transforms@);
        }
    }

    /// The initial kinematic writes: every body with a live solver body
    /// and a bone inside the skeleton is placed at its bone's left-handed
    /// frame times the bind offset (the caller also clears its
    /// velocities).
    pub fn initialize(&self, bone_transforms: &Vec<M4>) -> (r: Vec<(usize, M4)>)
        ensures
            forall|k: int|
                0 <= k < r@.len() ==> {
                    let (bi, m) = #[trigger] r@[k];
                    &&& (bi as int) < self.rigid_bodies@.len()
                    &&& self.rigid_bodies@[bi as int].has_body
                    &&& 0 <= self.rigid_bodies@[bi as int].bone_index
                    &&& (self.rigid_bodies@[bi as int].bone_index as int) < bone_transforms@.len()
                    &&& m == matmul_of(
                        spec_inv_z(
                            bone_transforms@[self.rigid_bodies@[bi as int].bone_index as int],
                        ),
                        self.rigid_bodies@[bi as int].body_offset_matrix,
                    )
                },
    {
        let n = self.rigid_bodies.len();
        let mut out: Vec<(usize, M4)> = Vec::new();
        let mut i: usize = 0;
        while i < n
            invariant
                n == self.rigid_bodies@.len(),
                i <= n,
                forall|k: int|
                    0 <= k < out@.len() ==> {
                        let (bi, m) = #[trigger] out@[k];
                        &&& (bi as int) < self.rigid_bodies@.len()
                        &&& self.rigid_bodies@[bi as int].has_body
                        &&& 0 <= self.rigid_bodies@[bi as int].bone_index
                        &&& (self.rigid_bodies@[bi as int].bone_index as int)
                            < bone_transforms@.len()
                        &&& m == matmul_of(
                            spec_inv_z(
                                bone_transforms@[self.rigid_bodies@[bi as int].bone_index as int],
                            ),
                            self.rigid_bodies@[bi as int].body_offset_matrix,
                        )
                    },
            decreases n - i,
        {
            let rb = &self.rigid_bodies[i];
            if rb.has_body && rb.bone_index >= 0 && (rb.bone_index as usize)
                < bone_transforms.len() {
                let bone_left = inv_z(&bone_transforms[rb.bone_index as usize]);
                let body_matrix = rb.compute_body_matrix(&bone_left);
                out.push((i, body_matrix));
            }
            i = i + 1;
        }
        out
    }

    /// The reset writes: every body with a live solver body goes back to
    /// its declared world transform (the caller also clears its
    /// velocities).
    pub fn reset(&self) -> (r: Vec<(usize, M4)>)
        ensures
            forall|k: int|
                0 <= k < r@.len() ==> {
                    let (bi, m) = #[trigger] r@[k];
                    &&& (bi as int) < self.rigid_bodies@.len()
                    &&& self.rigid_bodies@[bi as int].has_body
                    &&& m == self.rigid_bodies@[bi as int].initial_transform
                },
    {
        let n = self.rigid_bodies.len();
        let mut out: Vec<(usize, M4)> = Vec::new();
        let mut i: usize = 0;
        while i < n
            invariant
                n == self.rigid_bodies@.len(),
                i <= n,
                forall|k: int|
                    0 <= k < out@.len() ==> {
                        let (bi, m) = #[trigger] out@[k];
                        &&& (bi as int) < self.rigid_bodies@.len()
                        &&& self.rigid_bodies@[bi as int].has_body
                        &&& m == self.rigid_bodies@[bi as int].initial_transform
                    },
            decreases n - i,
        {
            let rb = &self.rigid_bodies[i];
            if rb.has_body {
                out.push((i, rb.initial_transform));
            }
            i = i + 1;
        }
        out
    }

    /// Tear the bridge down in the safe order: every constraint leaves the
    /// world and dies first, then every body and its shape, then the world
    /// itself. The returned counts are all zero: nothing leaks and no body
    /// dies while a constraint could still reach it.
    pub fn dispose(&mut self) -> (r: BulletAllocStats)
        requires
            old(self).wf(),
        ensures
            final(self).wf(),
            r == final(self).stats,
            r.is_clean_spec(),
    {
        // Constraints first: remove from the world and destroy.
        let nj = self.joints.len();
        let mut j: usize = 0;
        while j < nj
            invariant
                nj == self.joints@.len(),
                j <= nj,
                self.wf(),
                self.rigid_bodies@ == old(self).rigid_bodies@,
                self.world_alive == old(self).world_alive,
                forall|k: int| 0 <= k < j ==> !(#[trigger] self.joints@[k]).has_constraint,
            decreases nj - j,
        {
            let ghost js0 = self.joints@;
            let mut joint = self.joints.remove(j);
            if joint.has_constraint {
                proof {
                    lemma_count_bounds_joint(js0);
                    lemma_count_constraints_positive(js0, j as int);
                }
                joint.in_world = false;
                joint.has_constraint = false;
                self.stats.constraints = self.stats.constraints - 1;
            }
            self.joints.insert(j, joint);
            proof {
                lemma_count_constraints_update(js0, self.joints@, j as int);
            }
            j = j + 1;
        }
        proof {
            lemma_count_constraints_zero(self.joints@);
        }
        // No constraint is alive: bodies and shapes may die.
        assert(self.stats.constraints == 0);
        let nb = self.rigid_bodies.len();
        let mut i: usize = 0;
        while i < nb
            invariant
                nb == self.rigid_bodies@.len(),
                i <= nb,
                self.wf(),
                self.stats.constraints == 0,
                self.world_alive == old(self).world_alive,
                forall|k: int|
                    0 <= k < i ==> !(#[trigger] self.rigid_bodies@[k]).has_body && !self
                        .rigid_bodies@[k].has_shape,
            decreases nb - i,
        {
            let ghost rbs0 = self.rigid_bodies@;
            let mut rb = self.rigid_bodies.remove(i);
            proof {
                lemma_count_bounds_rb(rbs0);
                lemma_count_bodies_positive(rbs0, i as int);
            }
            if rb.has_body {
                rb.in_world = false;
                rb.has_body = false;
                self.stats.rigid_bodies = self.stats.rigid_bodies - 1;
                self.stats.motion_states = self.stats.motion_states - 1;
            }
            if rb.has_shape {
                rb.has_shape = false;
                self.stats.shapes = self.stats.shapes - 1;
            }
            self.rigid_bodies.insert(i, rb);
            proof {
                lemma_count_bodies_update(rbs0, self.rigid_bodies@, i as int);
            }
            i = i + 1;
        }
        proof {
            lemma_count_bodies_zero(self.rigid_bodies@);
        }
        // The world is empty: destroy it.
        if self.world_alive {
            self.world_alive = false;
            self.stats.worlds = self.stats.worlds - 1;
        }
        self.stats
    }
}


/// Counts are bounded by the list length and never negative.
proof fn lemma_count_bounds_rb(s: Seq<MmdRigidBodyData>)
    ensures
        0 <= spec_count_shapes(s) <= s.len(),
        0 <= spec_count_bodies(s) <= s.len(),
    decreases s.len(),
{
    if s.len() > 0 {
        lemma_count_bounds_rb(s.drop_last());
    }
}

/// Counts are bounded by the list length and never negative.
proof fn lemma_count_bounds_joint(s: Seq<MmdJointData>)
    ensures
        0 <= spec_count_constraints(s) <= s.len(),
    decreases s.len(),
{
    if s.len() > 0 {
        lemma_count_bounds_joint(s.drop_last());
    }
}

/// A live constraint at any index makes the count positive.
proof fn lemma_count_constraints_positive(s: Seq<MmdJointData>, i: int)
    requires
        0 <= i < s.len(),
        s[i].has_constraint,
    ensures
        spec_count_constraints(s) >= 1,
    decreases s.len(),
{
    lemma_count_bounds_joint(s.drop_last());
    if s.len() > 0 && i < s.len() - 1 {
        lemma_count_constraints_positive(s.drop_last(), i);
    }
}

/// A live body at any index makes the body count positive; a live shape
/// the shape count.
proof fn lemma_count_bodies_positive(s: Seq<MmdRigidBodyData>, i: int)
    requires
        0 <= i < s.len(),
    ensures
        s[i].has_body ==> spec_count_bodies(s) >= 1,
        s[i].has_shape ==> spec_count_shapes(s) >= 1,
    decreases s.len(),
{
    lemma_count_bounds_rb(s.drop_last());
    if s.len() > 0 && i < s.len() - 1 {
        lemma_count_bodies_positive(s.drop_last(), i);
    }
}

/// Updating one joint entry moves the constraint count by the flag
/// difference.
proof fn lemma_count_constraints_update(a: Seq<MmdJointData>, b: Seq<MmdJointData>, i: int)
    requires
        a.len() == b.len(),
        0 <= i < a.len(),
        forall|k: int| 0 <= k < a.len() && k != i ==> #[trigger] b[k] == a[k],
    ensures
        spec_count_constraints(b) == spec_count_constraints(a) + (if b[i].has_constraint {
            1int
        } else {
            0int
        }) - (if a[i].has_constraint {
            1int
        } else {
            0int
        }),
    decreases a.len(),
{
    if a.len() > 0 {
        if i == a.len() - 1 {
            assert(a.drop_last() =~= b.drop_last());
        } else {
            lemma_count_constraints_update(a.drop_last(), b.drop_last(), i);
        }
    }
}

/// A joint list with no live constraint counts zero.
proof fn lemma_count_constraints_zero(s: Seq<MmdJointData>)
    requires
        forall|k: int| 0 <= k < s.len() ==> !(#[trigger] s[k]).has_constraint,
    ensures
        spec_count_constraints(s) == 0,
    decreases s.len(),
{
    if s.len() > 0 {
        lemma_count_constraints_zero(s.drop_last());
    }
}

/// Updating one body entry moves the body, motion-state and shape counts
/// by the flag differences.
proof fn lemma_count_bodies_update(a: Seq<MmdRigidBodyData>, b: Seq<MmdRigidBodyData>, i: int)
    requires
        a.len() == b.len(),
        0 <= i < a.len(),
        forall|k: int| 0 <= k < a.len() && k != i ==> #[trigger] b[k] == a[k],
    ensures
        spec_count_bodies(b) == spec_count_bodies(a) + (if b[i].has_body {
            1int
        } else {
            0int
        }) - (if a[i].has_body {
            1int
        } else {
            0int
        }),
        spec_count_shapes(b) == spec_count_shapes(a) + (if b[i].has_shape {
            1int
        } else {
            0int
        }) - (if a[i].has_shape {
            1int
        } else {
            0int
        }),
    decreases a.len(),
{
    if a.len() > 0 {
        if i == a.len() - 1 {
            assert(a.drop_last() =~= b.drop_last());
        } else {
            lemma_count_bodies_update(a.drop_last(), b.drop_last(), i);
        }
    }
}

/// A body list with no live body or shape counts zero.
proof fn lemma_count_bodies_zero(s: Seq<MmdRigidBodyData>)
    requires
        forall|k: int|
            0 <= k < s.len() ==> !(#[trigger] s[k]).has_body && !s[k].has_shape,
    ensures
        spec_count_bodies(s) == 0,
        spec_count_shapes(s) == 0,
    decreases s.len(),
{
    if s.len() > 0 {
        lemma_count_bodies_zero(s.drop_last());
    }
}

} // verus!
