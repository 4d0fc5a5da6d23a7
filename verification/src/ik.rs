//! Cyclic-coordinate-descent inverse kinematics.
//!
//! Per iteration each chain link rotates the effector toward the target by
//! the clamped angle between the two directions, seen in the link's local
//! frame; the chain's world transforms are re-propagated after each step so
//! the next link sees the moved effector. Degenerate directions skip the
//! link, and the loop exits early once the effector is close enough.

use vstd::prelude::*;

use crate::algebra::{
    m4_to_scale_rotation_translation, q_from_axis_angle, q_from_euler_xyz, q_inverse, q_mul,
    q_mul_vec3, q_to_euler_xyz, v3_cross, v3_dot, v3_length, v3_normalize_or_zero, v3_sub,
    v3_zero, M4, V3,
};
use crate::bone::BoneLink;
use crate::bone_set::{
    lemma_same_but_ik_trans, lemma_same_but_world_trans, lemma_topo_preserved,
    lemma_world_change_facts, propagate_world, spec_local_consistent, spec_same_but_derived,
    spec_same_but_ik, spec_same_but_world, spec_topo_wf,
};
use crate::scalar::{facos, fclamp, flt};

verus! {

/// IEEE 754 bit pattern of `1.0_f32`.
pub const IK_ONE: u32 = 0x3F80_0000;

/// IEEE 754 bit pattern of `-1.0_f32`.
pub const IK_NEG_ONE: u32 = 0xBF80_0000;

/// IEEE 754 bit pattern of `1e-4_f32`: the effector-to-target distance
/// below which the solver stops early.
pub const IK_TOLERANCE: u32 = 0x38D1_B717;

/// One chain link: the bone it turns and its optional per-axis clamps.
#[derive(Clone, Copy, Debug)]
pub struct IkLink {
    /// The bone this link rotates.
    pub bone_index: usize,
    /// Whether the Euler components are clamped.
    pub has_limits: bool,
    /// Per-axis lower clamp, radians.
    pub lower_limit: V3,
    /// Per-axis upper clamp, radians.
    pub upper_limit: V3,
}

/// An IK setup: the effector chasing the IK bone, the chain, and the step
/// bounds.
#[derive(Clone, Debug)]
pub struct IkConfig {
    /// The bone whose position chases the IK bone.
    pub effector_bone: usize,
    /// Outer iteration bound.
    pub iterations: u32,
    /// Largest rotation per step, radians.
    pub unit_angle: u32,
    /// The chain links, innermost first.
    pub links: Vec<IkLink>,
}

/// One solver: the IK bone it serves, its setup and its enabled flag.
#[derive(Clone, Debug)]
pub struct IkSolver {
    /// The IK bone whose position the effector chases.
    pub bone_index: usize,
    /// The setup.
    pub config: IkConfig,
    /// Whether the solver runs.
    pub enabled: bool,
}

/// Whether bone `i` is one of the chain's links.
pub open spec fn spec_chain_member(chain: Seq<IkLink>, i: int) -> bool {
    exists|k: int| 0 <= k < chain.len() && (#[trigger] chain[k]).bone_index as int == i
}

/// The world position held in a transform's fourth column.
pub fn world_position(m: &M4) -> (r: V3)
    ensures
        r == (V3 { x: m.m[12], y: m.m[13], z: m.m[14] }),
{
    V3 { x: m.m[12], y: m.m[13], z: m.m[14] }
}

impl IkSolver {
    /// A solver for the IK bone at `bone_index`.
    pub fn new(bone_index: usize, config: IkConfig) -> (r: IkSolver)
        ensures
            r.bone_index == bone_index,
            r.config == config,
            r.enabled,
    {
        IkSolver { bone_index, config, enabled: true }
    }

    /// Run cyclic coordinate descent on the chain. Only the chain bones'
    /// IK rotations and the derived transforms move; every bone's
    /// animation inputs, flags and bind data stay put.
    pub fn solve(
        &self,
        links: &mut Vec<BoneLink>,
        sorted: &Vec<usize>,
        rank: &Vec<usize>,
        phys: &Vec<bool>,
    )
        requires
            spec_topo_wf(old(links)@, sorted@, rank@),
            phys@.len() == old(links)@.len(),
        ensures
            final(links)@.len() == old(links)@.len(),
            spec_topo_wf(final(links)@, sorted@, rank@),
            forall|i: int|
                0 <= i < old(links)@.len() ==> spec_same_but_derived(
                    old(links)@[i],
                    #[trigger] final(links)@[i],
                ),
            // A disabled solver or one whose bones are missing does nothing.
            (!self.enabled || self.bone_index >= old(links)@.len() || self.config.effector_bone
                >= old(links)@.len()) ==> final(links)@ == old(links)@,
            // Bones outside the chain move at most in their world fields.
            forall|i: int|
                0 <= i < old(links)@.len() && !spec_chain_member(self.config.links@, i)
                    ==> spec_same_but_world(old(links)@[i], #[trigger] final(links)@[i]),
            // Every bone either moves only in world fields, or it is a
            // chain link whose IK rotation turned and whose local
            // transform agrees with its final inputs.
            forall|i: int|
                0 <= i < old(links)@.len() ==> (spec_same_but_world(
                    old(links)@[i],
                    #[trigger] final(links)@[i],
                ) || (spec_same_but_ik(old(links)@[i], final(links)@[i]) && spec_local_consistent(
                    final(links)@[i],
                ))),
            // Physics-owned bones outside the chain do not move at all.
            forall|i: int|
                0 <= i < old(links)@.len() && phys@[i] && !spec_chain_member(
                    self.config.links@,
                    i,
                ) ==> #[trigger] final(links)@[i] == old(links)@[i],
    {
        let ghost orig = old(links)@;
        if !self.enabled {
            return;
        }
        let n = links.len();
        let target_index = self.bone_index;
        let effector_index = self.config.effector_bone;
        if target_index >= n || effector_index >= n {
            return;
        }
        let mut iteration: u32 = 0;
        while iteration < self.config.iterations
            invariant
                n == links@.len(),
                orig.len() == n,
                spec_topo_wf(links@, sorted@, rank@),
                phys@.len() == n,
                target_index < n,
                effector_index < n,
                forall|i: int|
                    0 <= i < n ==> spec_same_but_derived(orig[i], #[trigger] links@[i]),
                forall|i: int|
                    0 <= i < n && !spec_chain_member(self.config.links@, i)
                        ==> spec_same_but_world(orig[i], #[trigger] links@[i]),
                forall|i: int|
                    0 <= i < n ==> (spec_same_but_world(orig[i], #[trigger] links@[i]) || (
                    spec_same_but_ik(orig[i], links@[i]) && spec_local_consistent(links@[i]))),
                forall|i: int|
                    0 <= i < n && phys@[i] && !spec_chain_member(self.config.links@, i)
                        ==> #[trigger] links@[i] == orig[i],
            decreases self.config.iterations - iteration,
        {
            let effector_pos = world_position(&links[effector_index].local_to_world);
            let target_pos = world_position(&links[target_index].local_to_world);
            let gap = v3_length(v3_sub(target_pos, effector_pos));
            if flt(gap, IK_TOLERANCE) {
                break;
            }
            let mut li: usize = 0;
            while li < self.config.links.len()
                invariant
                    n == links@.len(),
                    orig.len() == n,
                    spec_topo_wf(links@, sorted@, rank@),
                    phys@.len() == n,
                    target_index < n,
                    effector_index < n,
                    li <= self.config.links@.len(),
                    forall|i: int|
                        0 <= i < n ==> spec_same_but_derived(orig[i], #[trigger] links@[i]),
                    forall|i: int|
                        0 <= i < n && !spec_chain_member(self.config.links@, i)
                            ==> spec_same_but_world(orig[i], #[trigger] links@[i]),
                    forall|i: int|
                        0 <= i < n ==> (spec_same_but_world(orig[i], #[trigger] links@[i]) || (
                        spec_same_but_ik(orig[i], links@[i]) && spec_local_consistent(
                            links@[i],
                        ))),
                    forall|i: int|
                        0 <= i < n && phys@[i] && !spec_chain_member(self.config.links@, i)
                            ==> #[trigger] links@[i] == orig[i],
                decreases self.config.links@.len() - li,
            {
                let chain_link = self.config.links[li];
                let lidx = chain_link.bone_index;
                if lidx < n {
                    let ghost before = links@;
                    let link_pos = world_position(&links[lidx].local_to_world);
                    let eff_pos = world_position(&links[effector_index].local_to_world);
                    let tgt_pos = world_position(&links[target_index].local_to_world);
                    let to_effector = v3_normalize_or_zero(v3_sub(eff_pos, link_pos));
                    let to_target = v3_normalize_or_zero(v3_sub(tgt_pos, link_pos));
                    let zero = v3_zero();
                    if !(to_effector == zero) && !(to_target == zero) {
                        let dot = v3_dot(to_effector, to_target);
                        let mut angle = facos(fclamp(dot, IK_NEG_ONE, IK_ONE));
                        if flt(self.config.unit_angle, angle) {
                            angle = self.config.unit_angle;
                        }
                        let axis = v3_cross(to_effector, to_target);
                        let (_, world_rot, _) = m4_to_scale_rotation_translation(
                            &links[lidx].local_to_world,
                        );
                        let axis_local = v3_normalize_or_zero(
                            q_mul_vec3(q_inverse(world_rot), axis),
                        );
                        if !(axis_local == zero) {
                            let step = q_from_axis_angle(axis_local, angle);
                            let mut new_ik = q_mul(links[lidx].ik_rotate, step);
                            if chain_link.has_limits {
                                let euler = q_to_euler_xyz(new_ik);
                                let ex = fclamp(
                                    euler.x,
                                    chain_link.lower_limit.x,
                                    chain_link.upper_limit.x,
                                );
                                let ey = fclamp(
                                    euler.y,
                                    chain_link.lower_limit.y,
                                    chain_link.upper_limit.y,
                                );
                                let ez = fclamp(
                                    euler.z,
                                    chain_link.lower_limit.z,
                                    chain_link.upper_limit.z,
                                );
                                new_ik = q_from_euler_xyz(ex, ey, ez);
                            }
                            let mut b = links[lidx];
                            b.ik_rotate = new_ik;
                            b.compute_local_transform();
                            links.set(lidx, b);
                            proof {
                                lemma_topo_preserved(before, links@, sorted@, rank@);
                                assert(spec_chain_member(self.config.links@, lidx as int)) by {
                                    assert((#[trigger] self.config.links@[li as int]).bone_index
                                        as int == lidx as int);
                                }
                                assert(spec_local_consistent(links@[lidx as int]));
                                assert forall|i: int|
                                    0 <= i < n implies (spec_same_but_world(
                                    orig[i],
                                    #[trigger] links@[i],
                                ) || (spec_same_but_ik(orig[i], links@[i])
                                    && spec_local_consistent(links@[i]))) by {
                                    if i != lidx as int {
                                        assert(links@[i] == before[i]);
                                    } else {
                                        if spec_same_but_world(orig[i], before[i]) {
                                            lemma_world_change_facts(orig[i], before[i]);
                                        }
                                        assert(spec_same_but_ik(orig[i], links@[i]));
                                    }
                                }
                            }
                            let ghost mid = links@;
                            propagate_world(links, sorted, rank, phys);
                            proof {
                                assert forall|i: int|
                                    0 <= i < n && !spec_chain_member(self.config.links@, i)
                                    implies spec_same_but_world(
                                    orig[i],
                                    #[trigger] links@[i],
                                ) by {
                                    assert(mid[i] == before[i]);
                                    lemma_same_but_world_trans(orig[i], mid[i], links@[i]);
                                }
                                assert forall|i: int|
                                    0 <= i < n implies (spec_same_but_world(
                                    orig[i],
                                    #[trigger] links@[i],
                                ) || (spec_same_but_ik(orig[i], links@[i])
                                    && spec_local_consistent(links@[i]))) by {
                                    if spec_same_but_world(orig[i], mid[i]) {
                                        lemma_same_but_world_trans(orig[i], mid[i], links@[i]);
                                    } else {
                                        lemma_world_change_facts(mid[i], links@[i]);
                                        lemma_same_but_ik_trans(orig[i], mid[i], links@[i]);
                                    }
                                }
                            }
                        }
                    }
                }
                li = li + 1;
            }
            iteration = iteration + 1;
        }
    }
}

} // verus!
