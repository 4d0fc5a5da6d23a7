//! A single bone of the skeleton: bind-pose data, per-tick animation
//! inputs, and the derived local and world transforms.

use vstd::prelude::*;

use crate::algebra::{
    from_quat_of, m4_from_quat, m4_from_translation, m4_mul, matmul_of, q4_identity, q_mul,
    quat_mul_of, spec_m4_from_translation, spec_q4_identity, spec_v3_add, spec_v3_zero, v3_add,
    v3_zero, M4, Q4, V3,
};

verus! {

/// The inherit (append) configuration of a bone: the source bone whose
/// animation it copies, and the copied fraction.
#[derive(Clone, Copy, Debug)]
pub struct AppendConfig {
    /// Index of the source bone.
    pub parent: i32,
    /// The copied fraction.
    pub rate: u32,
}

/// One bone: bind-pose data, flags, per-tick animation inputs and the
/// derived transforms. The bone's name lives in the owning set.
#[derive(Clone, Copy, Debug)]
pub struct BoneLink {
    /// The bone's index in the owning set.
    pub internal_id: usize,
    /// Index of the parent bone; negative for a root.
    pub parent_index: i32,
    /// Sort key: parents carry strictly lower levels than children.
    pub transform_level: i32,
    /// Bind-pose world translation.
    pub initial_position: V3,
    /// Bind-pose offset from the parent.
    pub body_shift: V3,
    /// Current transform into the parent's frame.
    pub local_to_parent: M4,
    /// Current transform into the world frame.
    pub local_to_world: M4,
    /// The parent's world transform as of the last propagation.
    pub parent_to_world: M4,
    /// Inverse of the bind-pose world transform.
    pub inverse_init: M4,
    /// Per-tick animation translation input.
    pub animation_translate: V3,
    /// Per-tick animation rotation input.
    pub animation_rotate: Q4,
    /// Per-tick inherit translation input.
    pub append_translate: V3,
    /// Per-tick inherit rotation input.
    pub append_rotate: Q4,
    /// Rotation written by the IK solver.
    pub ik_rotate: Q4,
    /// Whether the bone deforms after the physics step.
    pub deform_after_physics: bool,
    /// Whether an IK solver drives this bone.
    pub is_ik: bool,
    /// Whether the bone inherits rotation.
    pub is_append_rotate: bool,
    /// Whether the bone inherits translation.
    pub is_append_translate: bool,
    /// Whether inheritance reads the source's own animation input.
    pub is_append_local: bool,
    /// Whether IK is currently enabled for this bone.
    pub enable_ik: bool,
    /// Whether the bone has no children.
    pub is_leaf: bool,
    /// The inherit configuration, when the bone has one.
    pub append_config: Option<AppendConfig>,
}

/// The local transform a bone's inputs yield: the translation by bind
/// offset plus animation plus inherit translation, times the rotation
/// composed of animation, inherit and IK rotations.
pub open spec fn spec_local_transform(b: BoneLink) -> M4 {
    matmul_of(
        spec_m4_from_translation(
            spec_v3_add(spec_v3_add(b.body_shift, b.animation_translate), b.append_translate),
        ),
        from_quat_of(quat_mul_of(quat_mul_of(b.animation_rotate, b.append_rotate), b.ik_rotate)),
    )
}

/// The skinning matrix a bone yields: its world transform times its
/// inverse bind transform.
pub open spec fn spec_skinning_matrix(b: BoneLink) -> M4 {
    matmul_of(b.local_to_world, b.inverse_init)
}

/// A bone with cleared animation inputs: zero translations, identity
/// rotations.
pub open spec fn spec_reset_animation(b: BoneLink) -> BoneLink {
    BoneLink {
        animation_translate: spec_v3_zero(),
        animation_rotate: spec_q4_identity(),
        append_translate: spec_v3_zero(),
        append_rotate: spec_q4_identity(),
        ik_rotate: spec_q4_identity(),
        ..b
    }
}

impl BoneLink {
    /// A fresh root bone with identity transforms.
    pub fn new(parent_index: i32, transform_level: i32, initial_position: V3) -> (r: BoneLink)
        ensures
            r.parent_index == parent_index,
            r.transform_level == transform_level,
            r.initial_position == initial_position,
            r.animation_translate == spec_v3_zero(),
            r.animation_rotate == spec_q4_identity(),
            r.append_translate == spec_v3_zero(),
            r.append_rotate == spec_q4_identity(),
            r.ik_rotate == spec_q4_identity(),
            r.append_config is None,
            !r.deform_after_physics && !r.is_ik && !r.is_append_rotate && !r.is_append_translate
                && !r.is_append_local,
    {
        BoneLink {
            internal_id: 0,
            parent_index,
            transform_level,
            initial_position,
            body_shift: v3_zero(),
            local_to_parent: crate::algebra::m4_identity(),
            local_to_world: crate::algebra::m4_identity(),
            parent_to_world: crate::algebra::m4_identity(),
            inverse_init: crate::algebra::m4_identity(),
            animation_translate: v3_zero(),
            animation_rotate: q4_identity(),
            append_translate: v3_zero(),
            append_rotate: q4_identity(),
            ik_rotate: q4_identity(),
            deform_after_physics: false,
            is_ik: false,
            is_append_rotate: false,
            is_append_translate: false,
            is_append_local: false,
            enable_ik: false,
            is_leaf: true,
            append_config: None,
        }
    }

    /// Whether the bone is a root (no parent).
    pub fn is_root(&self) -> (r: bool)
        ensures
            r == (self.parent_index < 0),
    {
        self.parent_index < 0
    }

    /// Recompute the local transform from the current inputs.
    pub fn compute_local_transform(&mut self)
        ensures
            *final(self) == (BoneLink { local_to_parent: spec_local_transform(*old(self)), ..*old(
                self,
            ) }),
    {
        let t = v3_add(v3_add(self.body_shift, self.animation_translate), self.append_translate);
        let q = q_mul(q_mul(self.animation_rotate, self.append_rotate), self.ik_rotate);
        let trans = m4_from_translation(t);
        let rot = m4_from_quat(q);
        self.local_to_parent = m4_mul(&trans, &rot);
    }

    /// The skinning matrix: world transform times inverse bind transform.
    pub fn get_skinning_matrix(&self) -> (r: M4)
        ensures
            r == spec_skinning_matrix(*self),
    {
        m4_mul(&self.local_to_world, &self.inverse_init)
    }

    /// Clear the per-tick animation inputs.
    pub fn reset_animation(&mut self)
        ensures
            *final(self) == spec_reset_animation(*old(self)),
    {
        self.animation_translate = v3_zero();
        self.animation_rotate = q4_identity();
        self.append_translate = v3_zero();
        self.append_rotate = q4_identity();
        self.ik_rotate = q4_identity();
    }
}

} // verus!
