//! The per-tick pipeline: layers evaluate into bone and morph inputs, the
//! morph pass composes deltas, the skeleton runs its pre-physics pass, the
//! physics bridge exchanges transforms with the solver, the post-physics
//! pass settles the rest, and the skinning matrices are rebuilt last.
//!
//! The solver itself runs outside: `tick_begin` ends by returning the
//! kinematic body writes, `step_parameters` the step arguments, and
//! `tick_finish` takes the transforms read back from the solver.

use vstd::prelude::*;

use crate::algebra::{M4, V3};
use crate::bezier::CurveCache;
use crate::bone_set::{spec_consistent_at, BoneSet};
use crate::config::PhysicsConfig;
use crate::layer::AnimationLayerManager;
use crate::morph::MorphManager;
use crate::physics::{JointDesc, MMDPhysics, RigidBodyDesc};

verus! {

/// The assembled runtime: skeleton, morphs, layers, curve cache and the
/// optional physics bridge.
pub struct MmdEngine {
    /// The skeleton.
    pub bones: BoneSet,
    /// The morph store.
    pub morphs: MorphManager,
    /// The animation layers.
    pub layers: AnimationLayerManager,
    /// The physics bridge, once built.
    pub physics: Option<MMDPhysics>,
    /// The shared Bézier curve cache.
    pub cache: CurveCache,
}

impl MmdEngine {
    /// Component soundness.
    pub open spec fn wf(self) -> bool {
        &&& self.bones.wf()
        &&& self.layers.wf()
        &&& self.cache.wf()
        &&& match self.physics {
            Some(p) => p.wf(),
            None => true,
        }
    }

    /// An engine with the given number of animation layers and no physics.
    pub fn new(max_layers: usize) -> (r: MmdEngine)
        ensures
            r.wf(),
            r.physics is None,
            r.bones.links@.len() == 0,
            r.layers.layers@.len() == max_layers,
    {
        MmdEngine {
            bones: BoneSet::new(),
            morphs: MorphManager::new(),
            layers: AnimationLayerManager::new(max_layers),
            physics: None,
            cache: CurveCache::new(),
        }
    }

    /// The current world transform of every bone, in order.
    pub fn bone_world_transforms(&self) -> (r: Vec<M4>)
        ensures
            r@.len() == self.bones.links@.len(),
            forall|i: int|
                0 <= i < r@.len() ==> #[trigger] r@[i] == self.bones.links@[i].local_to_world,
    {
        let n = self.bones.bone_count();
        let mut out: Vec<M4> = Vec::new();
        let mut i: usize = 0;
        while i < n
            invariant
                n == self.bones.links@.len(),
                i <= n,
                out@.len() == i,
                forall|j: int|
                    0 <= j < i ==> #[trigger] out@[j] == self.bones.links@[j].local_to_world,
            decreases n - i,
        {
            match self.bones.get_bone(i) {
                Some(b) => {
                    out.push(b.local_to_world);
                },
                None => {
                    proof {
                        assert(false);
                    }
                },
            }
            i = i + 1;
        }
        out
    }

    /// Build the physics bridge from the declared bodies and joints and
    /// mark the bones that dynamic bodies own.
    pub fn build_physics(
        &mut self,
        body_descs: &Vec<RigidBodyDesc>,
        joint_descs: &Vec<JointDesc>,
        config: &PhysicsConfig,
    )
        requires
            old(self).wf(),
            body_descs@.len() <= 0x3FFF_FFFF,
            joint_descs@.len() <= 0x3FFF_FFFF,
        ensures
            final(self).wf(),
            final(self).bones.links@.len() == old(self).bones.links@.len(),
            // The bridge holds one derived body per descriptor, its dynamic
            // bone list is exactly the fold over those bodies, and the
            // skeleton's ownership flags mirror that list.
            match final(self).physics {
                Some(p) => {
                    &&& p.rigid_bodies@.len() == body_descs@.len()
                    &&& p.dynamic_bone_indices@ == crate::physics::spec_dynamic_bones(
                        p.rigid_bodies@,
                        0,
                    )
                    &&& final(self).bones.physics_bone_flags@.len() == old(self).bones.links@.len()
                    &&& (forall|i: int|
                        0 <= i < final(self).bones.physics_bone_flags@.len() ==> (
                        #[trigger] final(self).bones.physics_bone_flags@[i])
                            == p.dynamic_bone_indices@.contains(i as usize))
                },
                None => false,
            },
    {
        let bone_transforms = self.bone_world_transforms();
        let mut bridge = MMDPhysics::new(config);
        bridge.build_physics(body_descs, joint_descs, &bone_transforms, config.joints_enabled);
        self.bones.set_physics_bone_indices(bridge.get_dynamic_bone_indices());
        self.physics = Some(bridge);
    }

    /// The pre-physics half of a tick: advance the layers, clear the
    /// animation inputs and morph weights, evaluate the layers, compose
    /// the morphs, run the pre-physics transform pass, and return the
    /// kinematic writes for the solver.
    #[verifier::rlimit(100)]
    #[verifier::spinoff_prover]
    pub fn tick_begin(&mut self, delta_time: u32, positions: &mut Vec<V3>) -> (r: Vec<(usize, M4)>)
        requires
            old(self).wf(),
        ensures
            final(self).wf(),
            final(self).bones.links@.len() == old(self).bones.links@.len(),
            final(positions)@.len() == old(positions)@.len(),
            final(self).physics == old(self).physics,
            // After the pre-physics pass every bone outside physics
            // satisfies the hierarchy equation.
            final(self).bones.hierarchy_ok == old(self).bones.hierarchy_ok,
            old(self).bones.hierarchy_ok ==> forall|i: int|
                0 <= i < final(self).bones.links@.len() && !final(self).bones.physics_bone_flags@[i] ==> spec_consistent_at(final(self).bones.links@, i),
            // The returned writes are exactly the bridge's kinematic
            // commands over the post-pass world transforms.
            ({
                let worlds = Seq::new(
                    final(self).bones.links@.len(),
                    |i: int| final(self).bones.links@[i].local_to_world,
                );
                match final(self).physics {
                    Some(p) => r@ == crate::physics::spec_sync_body_commands(
                        p.rigid_bodies@,
                        worlds,
                        0,
                    ),
                    None => r@.len() == 0,
                }
            }),
    {
        self.layers.update(delta_time);
        self.bones.begin_update();
        self.morphs.reset_all_weights();
        self.layers.evaluate_normalized(&mut self.bones, &mut self.morphs, &mut self.cache);
        self.morphs.apply_morphs(&mut self.bones, positions);
        self.bones.update_transforms(false);
        let worlds = self.bone_world_transforms();
        proof {
            assert(worlds@ =~= Seq::new(
                self.bones.links@.len(),
                |i: int| self.bones.links@[i].local_to_world,
            ));
        }
        match &self.physics {
            Some(bridge) => bridge.sync_bodies(&worlds),
            None => Vec::new(),
        }
    }

    /// The step arguments for the solver: elapsed time, substep cap and
    /// fixed step.
    pub fn step_parameters(&self, delta_time: u32) -> (r: (u32, i32, u32))
        ensures
            match self.physics {
                Some(p) => r == (
                    delta_time,
                    p.max_substep_count,
                    crate::scalar::div_bits(crate::physics::PH_ONE, p.fps),
                ),
                None => r == (delta_time, 0i32, 0u32),
            },
    {
        match &self.physics {
            Some(bridge) => bridge.step_parameters(delta_time),
            None => (delta_time, 0, 0),
        }
    }

    /// The post-physics half of a tick: fold the transforms read back from
    /// the solver into the owned bones, refresh the other bones from their
    /// parents, run the post-physics transform pass, and rebuild the
    /// skinning matrices.
    #[verifier::rlimit(100)]
    #[verifier::spinoff_prover]
    pub fn tick_finish(&mut self, body_transforms: &Vec<M4>)
        requires
            old(self).wf(),
        ensures
            final(self).wf(),
            final(self).bones.links@.len() == old(self).bones.links@.len(),
            final(self).bones.hierarchy_ok == old(self).bones.hierarchy_ok,
            // After the post-physics pass every bone outside physics
            // satisfies the hierarchy equation, and the skinning matrices
            // are rebuilt from the settled world transforms.
            old(self).bones.hierarchy_ok ==> forall|i: int|
                0 <= i < final(self).bones.links@.len() && !final(self).bones.physics_bone_flags@[i] ==> spec_consistent_at(final(self).bones.links@, i),
            old(self).bones.hierarchy_ok ==> final(self).bones.skinning_matrices@.len() == final(self).bones.links@.len() && (forall|i: int|
                0 <= i < final(self).bones.links@.len() ==> #[trigger] final(self).bones.skinning_matrices@[i] == crate::bone::spec_skinning_matrix(
                    final(self).bones.links@[i],
                )),
    {
        let n = self.bones.bone_count();
        match &self.physics {
            Some(bridge) => {
                let mut worlds = self.bone_world_transforms();
                bridge.sync_bones(body_transforms, &mut worlds);
                let dynamic = bridge.get_dynamic_bone_indices();
                let mut flags: Vec<bool> = Vec::new();
                let mut i: usize = 0;
                while i < n
                    invariant
                        *self == *old(self),
                        i <= n,
                        flags@.len() == i,
                    decreases n - i,
                {
                    flags.push(false);
                    i = i + 1;
                }
                let mut k: usize = 0;
                while k < dynamic.len()
                    invariant
                        self.wf(),
                        k <= dynamic@.len(),
                        flags@.len() == n,
                        worlds@.len() >= 0,
                        self.bones.links@.len() == old(self).bones.links@.len(),
                        self.bones == (BoneSet { links: self.bones.links, ..old(self).bones }),
                        *self == (MmdEngine { bones: self.bones, ..*old(self) }),
                    decreases dynamic@.len() - k,
                {
                    let idx = dynamic[k];
                    if idx < n && idx < worlds.len() && idx < flags.len() {
                        self.bones.set_global_transform_physics(idx, worlds[idx]);
                        flags.set(idx, true);
                    }
                    k = k + 1;
                }
                self.bones.update_non_physics_children(&flags);
            },
            None => {},
        }
        self.bones.update_transforms(true);
        if self.bones.hierarchy_ok {
            self.bones.update_skinning_matrices();
        }
    }

    /// One whole tick without a solver: both halves back to back, with no
    /// transforms to fold back.
    pub fn tick(&mut self, delta_time: u32, positions: &mut Vec<V3>)
        requires
            old(self).wf(),
        ensures
            final(self).wf(),
            final(self).bones.links@.len() == old(self).bones.links@.len(),
            final(positions)@.len() == old(positions)@.len(),
            old(self).bones.hierarchy_ok ==> forall|i: int|
                0 <= i < final(self).bones.links@.len() && !final(self).bones.physics_bone_flags@[i] ==> spec_consistent_at(final(self).bones.links@, i),
    {
        let commands = self.tick_begin(delta_time, positions);
        let no_bodies: Vec<M4> = Vec::new();
        self.tick_finish(&no_bodies);
    }

    /// Tear the physics bridge down (constraints, then bodies, then the
    /// world) and return the final solver allocation counts, all zero.
    pub fn dispose_physics(&mut self) -> (r: Option<crate::physics::BulletAllocStats>)
        requires
            old(self).wf(),
        ensures
            final(self).wf(),
            final(self).physics is None,
            match r {
                Some(stats) => old(self).physics is Some && stats.is_clean_spec(),
                None => old(self).physics is None,
            },
    {
        let bridge = self.physics.take();
        match bridge {
            Some(mut b) => {
                let stats = b.dispose();
                Some(stats)
            },
            None => None,
        }
    }
}

} // verus!
