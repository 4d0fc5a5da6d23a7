//! The skeleton: a flat array of bones, a precomputed topological order,
//! local-to-world propagation, inherit transforms and IK dispatch.
//!
//! Bones sit in one vector; the hierarchy is an index into the same vector
//! plus a rank table sorted by transform level. `build_hierarchy` checks
//! explicitly that the order places every parent before its children and
//! records the outcome; propagation then walks that order, so a parent's
//! world transform is current whenever a child reads it.

use vstd::prelude::*;

use crate::algebra::{
    inverse_of, m4_identity, m4_inverse, m4_mul, m4_from_rotation_translation, matmul_of,
    m4_to_scale_rotation_translation, q4_identity, q_mul, q_slerp, slerp_of, spec_m4_from_translation,
    spec_q4_identity, spec_v3_scale, spec_v3_sub, srt_rotation_of, v3_scale, v3_sub, M4, Q4, V3,
};
use crate::bone::{spec_local_transform, spec_skinning_matrix, AppendConfig, BoneLink};
use crate::ik::IkSolver;

verus! {

/// Whether bone `i` has a parent index inside the array.
pub open spec fn spec_valid_parent(links: Seq<BoneLink>, i: int) -> bool {
    0 <= links[i].parent_index && (links[i].parent_index as int) < links.len()
}

/// Whether `sorted` and `rank` are mutually inverse permutations of the
/// bone indices that place every parent before its children.
pub open spec fn spec_topo_wf(links: Seq<BoneLink>, sorted: Seq<usize>, rank: Seq<usize>) -> bool {
    let n = links.len();
    &&& sorted.len() == n
    &&& rank.len() == n
    &&& (forall|k: int| 0 <= k < n ==> (#[trigger] sorted[k]) < n)
    &&& (forall|k: int| 0 <= k < n ==> rank[#[trigger] sorted[k] as int] == k)
    &&& (forall|i: int|
        0 <= i < n ==> (#[trigger] rank[i]) < n && sorted[rank[i] as int] == i)
    &&& (forall|i: int|
        0 <= i < n && spec_valid_parent(links, i) ==> rank[links[i].parent_index as int] < (
        #[trigger] rank[i]))
}

/// Whether `b` differs from `a` at most in its world transforms.
pub open spec fn spec_same_but_world(a: BoneLink, b: BoneLink) -> bool {
    b == BoneLink { local_to_world: b.local_to_world, parent_to_world: b.parent_to_world, ..a }
}

/// Whether `b` differs from `a` at most in the fields that a transform
/// pass derives: the local and world transforms, the IK rotation and the
/// inherit inputs.
pub open spec fn spec_same_but_derived(a: BoneLink, b: BoneLink) -> bool {
    b == BoneLink {
        local_to_parent: b.local_to_parent,
        local_to_world: b.local_to_world,
        parent_to_world: b.parent_to_world,
        ik_rotate: b.ik_rotate,
        append_rotate: b.append_rotate,
        append_translate: b.append_translate,
        ..a
    }
}

/// Whether `b` differs from `a` at most in its IK rotation and the
/// transforms derived from it.
pub open spec fn spec_same_but_ik(a: BoneLink, b: BoneLink) -> bool {
    b == BoneLink {
        ik_rotate: b.ik_rotate,
        local_to_parent: b.local_to_parent,
        local_to_world: b.local_to_world,
        parent_to_world: b.parent_to_world,
        ..a
    }
}

/// Whether a bone's local transform agrees with its own current inputs.
pub open spec fn spec_local_consistent(b: BoneLink) -> bool {
    b.local_to_parent == spec_local_transform(b)
}

/// Changing only world fields keeps every weaker frame and the local
/// consistency.
pub proof fn lemma_world_change_facts(a: BoneLink, b: BoneLink)
    requires
        spec_same_but_world(a, b),
    ensures
        spec_same_but_ik(a, b),
        spec_local_consistent(a) ==> spec_local_consistent(b),
{
}

/// Differing at most in world fields is transitive.
pub proof fn lemma_same_but_world_trans(a: BoneLink, b: BoneLink, c: BoneLink)
    requires
        spec_same_but_world(a, b),
        spec_same_but_world(b, c),
    ensures
        spec_same_but_world(a, c),
{
}

/// Differing at most in the IK-derived fields is transitive.
pub proof fn lemma_same_but_ik_trans(a: BoneLink, b: BoneLink, c: BoneLink)
    requires
        spec_same_but_ik(a, b),
        spec_same_but_ik(b, c),
    ensures
        spec_same_but_ik(a, c),
{
}

/// Hierarchy consistency at bone `i`: its world transform equals its
/// parent's times its local transform (or the local transform itself for a
/// root).
pub open spec fn spec_consistent_at(links: Seq<BoneLink>, i: int) -> bool {
    if spec_valid_parent(links, i) {
        links[i].local_to_world == matmul_of(
            links[links[i].parent_index as int].local_to_world,
            links[i].local_to_parent,
        )
    } else {
        links[i].local_to_world == links[i].local_to_parent
    }
}

/// A topological order stays sound when the parent indices stay put.
pub proof fn lemma_topo_preserved(
    a: Seq<BoneLink>,
    b: Seq<BoneLink>,
    sorted: Seq<usize>,
    rank: Seq<usize>,
)
    requires
        spec_topo_wf(a, sorted, rank),
        a.len() == b.len(),
        forall|i: int| 0 <= i < b.len() ==> (#[trigger] b[i]).parent_index == a[i].parent_index,
    ensures
        spec_topo_wf(b, sorted, rank),
{
    assert forall|i: int|
        0 <= i < b.len() && spec_valid_parent(b, i) implies rank[b[i].parent_index as int] < (
    #[trigger] rank[i]) by {
        assert(spec_valid_parent(a, i));
    }
}

/// Recompute the world transform of every bone the physics system does not
/// own, in topological order, so each bone reads its parent's final value.
pub fn propagate_world(
    links: &mut Vec<BoneLink>,
    sorted: &Vec<usize>,
    rank: &Vec<usize>,
    phys: &Vec<bool>,
)
    requires
        spec_topo_wf(old(links)@, sorted@, rank@),
        phys@.len() == old(links)@.len(),
    ensures
        final(links)@.len() == old(links)@.len(),
        spec_topo_wf(final(links)@, sorted@, rank@),
        forall|i: int|
            0 <= i < old(links)@.len() ==> spec_same_but_world(
                old(links)@[i],
                #[trigger] final(links)@[i],
            ),
        forall|i: int|
            0 <= i < old(links)@.len() && phys@[i] ==> #[trigger] final(links)@[i] == old(
                links,
            )@[i],
        forall|i: int|
            0 <= i < old(links)@.len() && !phys@[i] ==> spec_consistent_at(final(links)@, i),
{
    let ghost orig = old(links)@;
    let n = links.len();
    let mut k: usize = 0;
    while k < n
        invariant
            n == links@.len(),
            orig.len() == n,
            spec_topo_wf(orig, sorted@, rank@),
            phys@.len() == n,
            k <= n,
            forall|i: int|
                0 <= i < n ==> spec_same_but_world(orig[i], #[trigger] links@[i]),
            forall|i: int| 0 <= i < n && phys@[i] ==> #[trigger] links@[i] == orig[i],
            forall|i: int| 0 <= i < n && rank@[i] >= k ==> #[trigger] links@[i] == orig[i],
            forall|i: int|
                0 <= i < n && rank@[i] < k && !phys@[i] ==> spec_consistent_at(links@, i),
        decreases n - k,
    {
        let idx = sorted[k];
        proof {
            assert(rank@[idx as int] == k);
        }
        if !phys[idx] {
            let ghost before = links@;
            let mut b = links[idx];
            let p = b.parent_index;
            if p >= 0 && (p as usize) < n {
                let pw = links[p as usize].local_to_world;
                b.parent_to_world = pw;
                b.local_to_world = m4_mul(&pw, &b.local_to_parent);
            } else {
                b.parent_to_world = m4_identity();
                b.local_to_world = b.local_to_parent;
            }
            links.set(idx, b);
            proof {
                assert forall|i: int|
                    0 <= i < n && rank@[i] < k + 1 && !phys@[i] implies spec_consistent_at(
                    links@,
                    i,
                ) by {
                    if i == idx as int {
                        if spec_valid_parent(links@, i) {
                            let pi = links@[i].parent_index as int;
                            assert(rank@[pi] < rank@[i]);
                            assert(pi != idx as int);
                            assert(links@[pi] == before[pi]);
                        }
                    } else {
                        assert(rank@[i] != k);
                        assert(rank@[i] < k);
                        assert(links@[i] == before[i]);
                        if spec_valid_parent(links@, i) {
                            let pi = links@[i].parent_index as int;
                            assert(rank@[pi] < rank@[i]);
                            assert(pi != idx as int);
                            assert(links@[pi] == before[pi]);
                        }
                    }
                }
            }
        }
        k = k + 1;
    }
    proof {
        lemma_topo_preserved(orig, links@, sorted@, rank@);
    }
}

/// The skeleton: bones, their names, the topological order, the IK
/// solvers, the skinning matrices and the set of physics-owned bones.
pub struct BoneSet {
    /// The bones.
    pub links: Vec<BoneLink>,
    /// The bones' names, index for index.
    pub names: Vec<String>,
    /// Bone indices sorted by transform level.
    pub sorted_indices: Vec<usize>,
    /// Rank of each bone in the sorted order.
    pub rank: Vec<usize>,
    /// One solver per IK bone.
    pub ik_solvers: Vec<IkSolver>,
    /// The skinning matrix of each bone.
    pub skinning_matrices: Vec<M4>,
    /// Whether each bone's transform is owned by physics.
    pub physics_bone_flags: Vec<bool>,
    /// Whether the order checks of `build_hierarchy` passed.
    pub hierarchy_ok: bool,
    /// Whether bones were added since the hierarchy was built.
    pub needs_hierarchy_update: bool,
}

impl BoneSet {
    /// Structural soundness: names go index for index with bones, and when
    /// the hierarchy checks passed, the order tables are mutually inverse
    /// permutations placing parents before children, with the side tables
    /// sized to the bone count.
    pub open spec fn wf(self) -> bool {
        &&& self.names@.len() == self.links@.len()
        &&& (self.hierarchy_ok ==> {
            &&& spec_topo_wf(self.links@, self.sorted_indices@, self.rank@)
            &&& self.skinning_matrices@.len() == self.links@.len()
            &&& self.physics_bone_flags@.len() == self.links@.len()
        })
    }

    /// An empty skeleton.
    pub fn new() -> (r: BoneSet)
        ensures
            r.wf(),
            r.links@.len() == 0,
            !r.hierarchy_ok,
    {
        BoneSet {
            links: Vec::new(),
            names: Vec::new(),
            sorted_indices: Vec::new(),
            rank: Vec::new(),
            ik_solvers: Vec::new(),
            skinning_matrices: Vec::new(),
            physics_bone_flags: Vec::new(),
            hierarchy_ok: false,
            needs_hierarchy_update: true,
        }
    }

    /// Append a bone under a name; the hierarchy must be rebuilt before the
    /// next update.
    pub fn add_bone(&mut self, name: String, bone: BoneLink)
        requires
            old(self).wf(),
            old(self).links@.len() < usize::MAX,
        ensures
            final(self).wf(),
            final(self).links@.len() == old(self).links@.len() + 1,
            final(self).links@.last() == (BoneLink {
                internal_id: old(self).links@.len() as usize,
                ..bone
            }),
            final(self).names@.last()@ == name@,
            forall|i: int|
                0 <= i < old(self).links@.len() ==> #[trigger] final(self).links@[i] == old(
                    self,
                ).links@[i],
            !final(self).hierarchy_ok,
    {
        let mut bone = bone;
        bone.internal_id = self.links.len();
        self.links.push(bone);
        self.names.push(name);
        self.hierarchy_ok = false;
        self.needs_hierarchy_update = true;
    }

    /// Append a bone under a name (alias of `add_bone`).
    pub fn add_link(&mut self, name: String, bone: BoneLink)
        requires
            old(self).wf(),
            old(self).links@.len() < usize::MAX,
        ensures
            final(self).wf(),
            final(self).links@.len() == old(self).links@.len() + 1,
            !final(self).hierarchy_ok,
    {
        self.add_bone(name, bone);
    }

    /// Number of bones.
    pub fn num_links(&self) -> (r: usize)
        ensures
            r == self.links@.len(),
    {
        self.links.len()
    }

    /// Number of bones.
    pub fn bone_count(&self) -> (r: usize)
        ensures
            r == self.links@.len(),
    {
        self.links.len()
    }

    /// The bone at `index`, when it exists.
    pub fn get_bone(&self, index: usize) -> (r: Option<BoneLink>)
        ensures
            r == if index < self.links@.len() {
                Some(self.links@[index as int])
            } else {
                None::<BoneLink>
            },
    {
        if index < self.links.len() {
            Some(self.links[index])
        } else {
            None
        }
    }

    /// The bone at `index`, when it exists (alias of `get_bone`).
    pub fn link(&self, id: usize) -> (r: Option<BoneLink>)
        ensures
            r == if id < self.links@.len() {
                Some(self.links@[id as int])
            } else {
                None::<BoneLink>
            },
    {
        self.get_bone(id)
    }

    /// The first bone, when any exists.
    pub fn root(&self) -> (r: Option<BoneLink>)
        ensures
            r == if self.links@.len() > 0 {
                Some(self.links@[0])
            } else {
                None::<BoneLink>
            },
    {
        self.get_bone(0)
    }

    /// Index of the first bone carrying `name`, if any.
    pub fn find_bone_by_name(&self, name: &String) -> (r: Option<usize>)
        requires
            self.wf(),
        ensures
            match r {
                Some(i) => i < self.names@.len() && self.names@[i as int]@ == name@,
                None => forall|j: int| 0 <= j < self.names@.len() ==> (#[trigger] self.names@[j])@
                    != name@,
            },
    {
        let mut i: usize = 0;
        while i < self.names.len()
            invariant
                i <= self.names@.len(),
                forall|j: int| 0 <= j < i ==> (#[trigger] self.names@[j])@ != name@,
            decreases self.names@.len() - i,
        {
            if self.names[i].eq(name) {
                return Some(i);
            }
            i = i + 1;
        }
        None
    }

    /// Mark the given bones as physics-owned.
    pub fn set_physics_bone_indices(&mut self, indices: &Vec<usize>)
        requires
            old(self).wf(),
        ensures
            final(self).wf(),
            final(self).links@ == old(self).links@,
            final(self).physics_bone_flags@.len() == old(self).links@.len(),
            forall|i: int|
                0 <= i < final(self).physics_bone_flags@.len() ==> (#[trigger] final(self).physics_bone_flags@[i]) == indices@.contains(i as usize),
            *final(self) == (BoneSet {
                physics_bone_flags: final(self).physics_bone_flags,
                ..*old(self)
            }),
    {
        let n = self.links.len();
        let mut flags: Vec<bool> = Vec::new();
        let mut i: usize = 0;
        while i < n
            invariant
                i <= n,
                flags@.len() == i,
                forall|j: int| 0 <= j < i ==> !(#[trigger] flags@[j]),
            decreases n - i,
        {
            flags.push(false);
            i = i + 1;
        }
        let mut k: usize = 0;
        while k < indices.len()
            invariant
                flags@.len() == n,
                k <= indices@.len(),
                forall|j: int|
                    0 <= j < n ==> ((#[trigger] flags@[j]) == exists|m: int|
                        0 <= m < k && indices@[m] == j),
            decreases indices@.len() - k,
        {
            let idx = indices[k];
            if idx < n {
                flags.set(idx, true);
                proof {
                    assert(indices@[k as int] == idx);
                }
            }
            proof {
                assert forall|j: int|
                    0 <= j < n implies ((#[trigger] flags@[j]) == exists|m: int|
                    0 <= m < k + 1 && indices@[m] == j) by {
                    if flags@[j] {
                        if j == idx as int && idx < n {
                            assert(indices@[k as int] == j);
                        }
                    } else {
                        assert(!(exists|m: int| 0 <= m < k && indices@[m] == j));
                        assert(indices@[k as int] != j || idx >= n);
                        if indices@[k as int] == j {
                            assert(j >= n as int || j == idx as int);
                        }
                    }
                }
            }
            k = k + 1;
        }
        self.physics_bone_flags = flags;
        proof {
            assert forall|i2: int|
                0 <= i2 < self.physics_bone_flags@.len() implies ((#[trigger] self
                .physics_bone_flags@[i2]) == indices@.contains(i2 as usize)) by {
                if self.physics_bone_flags@[i2] {
                    let m = choose|m: int|
                        0 <= m < indices@.len() && indices@[m] == i2 as usize;
                    assert(indices@.contains(i2 as usize));
                } else {
                    if indices@.contains(i2 as usize) {
                        let m = choose|m: int|
                            0 <= m < indices@.len() && indices@[m] == i2 as usize;
                        assert(exists|m2: int|
                            0 <= m2 < indices@.len() && indices@[m2] == i2 as usize);
                        assert(false);
                    }
                }
            }
        }
    }

    /// Mark no bone as physics-owned.
    pub fn clear_physics_bone_indices(&mut self)
        requires
            old(self).wf(),
        ensures
            final(self).wf(),
            final(self).links@ == old(self).links@,
            forall|i: int|
                0 <= i < final(self).physics_bone_flags@.len() ==> !(#[trigger] final(self).physics_bone_flags@[i]),
            final(self).physics_bone_flags@.len() == old(self).links@.len(),
            *final(self) == (BoneSet {
                physics_bone_flags: final(self).physics_bone_flags,
                ..*old(self)
            }),
    {
        let empty: Vec<usize> = Vec::new();
        self.set_physics_bone_indices(&empty);
    }

    /// Whether the bone at `index` is physics-owned.
    pub fn is_physics_bone(&self, index: usize) -> (r: bool)
        ensures
            r == (index < self.physics_bone_flags@.len() && self.physics_bone_flags@[index as int]),
    {
        index < self.physics_bone_flags.len() && self.physics_bone_flags[index]
    }

    /// Overwrite a bone's animation translation input.
    pub fn set_bone_translation(&mut self, index: usize, translation: V3)
        requires
            old(self).wf(),
        ensures
            final(self).wf(),
            index < old(self).links@.len() ==> final(self).links@ == old(self).links@.update(
                index as int,
                BoneLink { animation_translate: translation, ..old(self).links@[index as int] },
            ),
            index >= old(self).links@.len() ==> *final(self) == *old(self),
            *final(self) == (BoneSet { links: final(self).links, ..*old(self) }),
    {
        if index < self.links.len() {
            let mut b = self.links[index];
            b.animation_translate = translation;
            self.links.set(index, b);
            proof {
                if self.hierarchy_ok {
                    lemma_topo_preserved(
                        old(self).links@,
                        self.links@,
                        self.sorted_indices@,
                        self.rank@,
                    );
                }
            }
        }
    }

    /// Overwrite a bone's animation rotation input.
    pub fn set_bone_rotation(&mut self, index: usize, rotation: Q4)
        requires
            old(self).wf(),
        ensures
            final(self).wf(),
            index < old(self).links@.len() ==> final(self).links@ == old(self).links@.update(
                index as int,
                BoneLink { animation_rotate: rotation, ..old(self).links@[index as int] },
            ),
            index >= old(self).links@.len() ==> *final(self) == *old(self),
            *final(self) == (BoneSet { links: final(self).links, ..*old(self) }),
    {
        if index < self.links.len() {
            let mut b = self.links[index];
            b.animation_rotate = rotation;
            self.links.set(index, b);
            proof {
                if self.hierarchy_ok {
                    lemma_topo_preserved(
                        old(self).links@,
                        self.links@,
                        self.sorted_indices@,
                        self.rank@,
                    );
                }
            }
        }
    }

    /// Compose a rotation onto a bone's animation rotation input.
    pub fn add_bone_rotation(&mut self, index: usize, rotation: Q4)
        requires
            old(self).wf(),
        ensures
            final(self).wf(),
            index < old(self).links@.len() ==> final(self).links@ == old(self).links@.update(
                index as int,
                BoneLink {
                    animation_rotate: crate::algebra::quat_mul_of(
                        old(self).links@[index as int].animation_rotate,
                        rotation,
                    ),
                    ..old(self).links@[index as int]
                },
            ),
            index >= old(self).links@.len() ==> *final(self) == *old(self),
            *final(self) == (BoneSet { links: final(self).links, ..*old(self) }),
    {
        if index < self.links.len() {
            let mut b = self.links[index];
            b.animation_rotate = q_mul(b.animation_rotate, rotation);
            self.links.set(index, b);
            proof {
                if self.hierarchy_ok {
                    lemma_topo_preserved(
                        old(self).links@,
                        self.links@,
                        self.sorted_indices@,
                        self.rank@,
                    );
                }
            }
        }
    }

    /// A bone's current world transform, the identity when out of range.
    pub fn get_global_transform(&self, index: usize) -> (r: M4)
        ensures
            index < self.links@.len() ==> r == self.links@[index as int].local_to_world,
            index >= self.links@.len() ==> r == crate::algebra::spec_m4_identity(),
    {
        if index < self.links.len() {
            self.links[index].local_to_world
        } else {
            m4_identity()
        }
    }

    /// The skinning matrices, one per bone.
    pub fn get_skinning_matrices(&self) -> (r: &Vec<M4>)
        ensures
            r@ == self.skinning_matrices@,
    {
        &self.skinning_matrices
    }

    /// Overwrite one skinning matrix.
    pub fn set_skinning_matrix(&mut self, index: usize, matrix: M4)
        requires
            old(self).wf(),
        ensures
            final(self).wf(),
            index < old(self).skinning_matrices@.len() ==> final(self).skinning_matrices@ == old(
                self,
            ).skinning_matrices@.update(index as int, matrix),
            index >= old(self).skinning_matrices@.len() ==> *final(self) == *old(self),
            *final(self) == (BoneSet {
                skinning_matrices: final(self).skinning_matrices,
                ..*old(self)
            }),
    {
        if index < self.skinning_matrices.len() {
            self.skinning_matrices.set(index, matrix);
        }
    }

    /// Recompute every skinning matrix from the current world transforms.
    pub fn update_skinning_matrices(&mut self)
        requires
            old(self).wf(),
            old(self).skinning_matrices@.len() == old(self).links@.len(),
        ensures
            final(self).wf(),
            final(self).skinning_matrices@.len() == old(self).links@.len(),
            forall|i: int|
                0 <= i < old(self).links@.len() ==> #[trigger] final(self).skinning_matrices@[i]
                    == spec_skinning_matrix(old(self).links@[i]),
            *final(self) == (BoneSet {
                skinning_matrices: final(self).skinning_matrices,
                ..*old(self)
            }),
    {
        let n = self.links.len();
        let mut i: usize = 0;
        while i < n
            invariant
                n == self.links@.len(),
                self.links@ == old(self).links@,
                self.skinning_matrices@.len() == n,
                i <= n,
                forall|j: int|
                    0 <= j < i ==> #[trigger] self.skinning_matrices@[j] == spec_skinning_matrix(
                        self.links@[j],
                    ),
                forall|j: int|
                    i <= j < n ==> #[trigger] self.skinning_matrices@[j] == old(
                        self,
                    ).skinning_matrices@[j],
                *self == (BoneSet { skinning_matrices: self.skinning_matrices, ..*old(self) }),
            decreases n - i,
        {
            let m = self.links[i].get_skinning_matrix();
            self.skinning_matrices.set(i, m);
            i = i + 1;
        }
    }

    /// Recompute every skinning matrix (alias of
    /// `update_skinning_matrices`, run at the end of a tick).
    pub fn end_update(&mut self)
        requires
            old(self).wf(),
            old(self).skinning_matrices@.len() == old(self).links@.len(),
        ensures
            final(self).wf(),
            final(self).skinning_matrices@.len() == old(self).links@.len(),
            forall|i: int|
                0 <= i < old(self).links@.len() ==> #[trigger] final(self).skinning_matrices@[i]
                    == spec_skinning_matrix(old(self).links@[i]),
            *final(self) == (BoneSet {
                skinning_matrices: final(self).skinning_matrices,
                ..*old(self)
            }),
    {
        self.update_skinning_matrices();
    }

    /// Clear every bone's per-tick animation inputs.
    pub fn begin_update(&mut self)
        requires
            old(self).wf(),
        ensures
            final(self).wf(),
            final(self).links@.len() == old(self).links@.len(),
            forall|i: int|
                0 <= i < old(self).links@.len() ==> #[trigger] final(self).links@[i]
                    == crate::bone::spec_reset_animation(old(self).links@[i]),
            *final(self) == (BoneSet { links: final(self).links, ..*old(self) }),
    {
        let n = self.links.len();
        let mut i: usize = 0;
        while i < n
            invariant
                n == self.links@.len(),
                old(self).links@.len() == n,
                i <= n,
                forall|j: int|
                    0 <= j < i ==> #[trigger] self.links@[j] == crate::bone::spec_reset_animation(
                        old(self).links@[j],
                    ),
                forall|j: int| i <= j < n ==> #[trigger] self.links@[j] == old(self).links@[j],
                *self == (BoneSet { links: self.links, ..*old(self) }),
            decreases n - i,
        {
            let mut b = self.links[i];
            b.reset_animation();
            self.links.set(i, b);
            i = i + 1;
        }
        proof {
            if self.hierarchy_ok {
                lemma_topo_preserved(
                    old(self).links@,
                    self.links@,
                    self.sorted_indices@,
                    self.rank@,
                );
            }
        }
    }

    /// Clear every bone's per-tick animation inputs (alias of
    /// `begin_update`).
    pub fn reset_all_transforms(&mut self)
        requires
            old(self).wf(),
        ensures
            final(self).wf(),
            final(self).links@.len() == old(self).links@.len(),
            forall|i: int|
                0 <= i < old(self).links@.len() ==> #[trigger] final(self).links@[i]
                    == crate::bone::spec_reset_animation(old(self).links@[i]),
    {
        self.begin_update();
    }
}

/// Whether bone `i` sits in the chain of any registered solver serving the
/// IK bone `bone`.
pub open spec fn spec_in_chain_of(solvers: Seq<IkSolver>, bone: int, i: int) -> bool {
    exists|k: int|
        0 <= k < solvers.len() && (#[trigger] solvers[k]).bone_index as int == bone
            && crate::ik::spec_chain_member(solvers[k].config.links@, i)
}

/// Whether bone `i` sits in the chain of any solver whose IK bone belongs
/// to the given pass: those are the bones an IK dispatch of that pass may
/// turn.
pub open spec fn spec_in_matching_chain(
    solvers: Seq<IkSolver>,
    links: Seq<BoneLink>,
    i: int,
    after_physics: bool,
) -> bool {
    exists|k: int|
        0 <= k < solvers.len() && {
            let sv = #[trigger] solvers[k];
            &&& (sv.bone_index as int) < links.len()
            &&& links[sv.bone_index as int].deform_after_physics == after_physics
            &&& links[sv.bone_index as int].is_ik
            &&& crate::ik::spec_chain_member(sv.config.links@, i)
        }
}

/// Whether index `j` appears somewhere in `sorted`.
pub open spec fn spec_appears(sorted: Seq<usize>, j: int) -> bool {
    exists|k: int| 0 <= k < sorted.len() && (#[trigger] sorted[k]) as int == j
}

/// The bind-pose initialisation of bone `i`: its offset from the parent,
/// its seeded world transform, the inverse bind transform and the local
/// transform, all from the initial positions.
pub open spec fn spec_bind_shift(links: Seq<BoneLink>, i: int) -> V3 {
    if spec_valid_parent(links, i) {
        spec_v3_sub(links[i].initial_position, links[links[i].parent_index as int].initial_position)
    } else {
        links[i].initial_position
    }
}

/// The rotation an inheriting bone copies from its source: the source's
/// own animation rotation when inheriting locally or when the source has
/// no inherit setup of its own, else the source's inherited rotation; an
/// IK-enabled source contributes its IK rotation first.
pub open spec fn spec_append_source_rotate(source: BoneLink, local: bool) -> Q4 {
    let base = if local {
        source.animation_rotate
    } else if source.append_config is Some {
        source.append_rotate
    } else {
        source.animation_rotate
    };
    if source.enable_ik {
        crate::algebra::quat_mul_of(source.ik_rotate, base)
    } else {
        base
    }
}

/// The translation an inheriting bone copies from its source, by the same
/// source selection rule.
pub open spec fn spec_append_source_translate(source: BoneLink, local: bool) -> V3 {
    if local {
        source.animation_translate
    } else if source.append_config is Some {
        source.append_translate
    } else {
        source.animation_translate
    }
}

/// The bone at `index` after its inherit transform is applied against the
/// bones `s`: the configured fraction of the source's rotation arrives
/// through a short-arc interpolation from the identity, the translation is
/// scaled directly, and the local transform is rebuilt.
pub open spec fn spec_applied_append(s: Seq<BoneLink>, index: int) -> BoneLink {
    let b = s[index];
    match b.append_config {
        None => b,
        Some(cfg) => {
            if cfg.parent < 0 || cfg.parent as int >= s.len() {
                b
            } else {
                let source = s[cfg.parent as int];
                let new_rotate = if b.is_append_rotate {
                    slerp_of(
                        spec_q4_identity(),
                        spec_append_source_rotate(source, b.is_append_local),
                        cfg.rate,
                    )
                } else {
                    b.append_rotate
                };
                let new_translate = if b.is_append_translate {
                    spec_v3_scale(
                        spec_append_source_translate(source, b.is_append_local),
                        cfg.rate,
                    )
                } else {
                    b.append_translate
                };
                let updated = BoneLink {
                    append_rotate: new_rotate,
                    append_translate: new_translate,
                    ..b
                };
                BoneLink { local_to_parent: spec_local_transform(updated), ..updated }
            }
        },
    }
}

impl BoneSet {
    /// Register an IK solver; the transform passes dispatch to it by its
    /// bone index.
    pub fn add_ik_solver(&mut self, solver: IkSolver)
        requires
            old(self).wf(),
        ensures
            final(self).wf(),
            final(self).ik_solvers@.len() == old(self).ik_solvers@.len() + 1,
            *final(self) == (BoneSet { ik_solvers: final(self).ik_solvers, ..*old(self) }),
    {
        self.ik_solvers.push(solver);
    }

    /// Enable or disable the solver at `solver_index`.
    pub fn set_ik_enabled(&mut self, solver_index: usize, enabled: bool)
        requires
            old(self).wf(),
        ensures
            final(self).wf(),
            solver_index < old(self).ik_solvers@.len() ==> final(self).ik_solvers@ == old(
                self,
            ).ik_solvers@.update(
                solver_index as int,
                IkSolver { enabled, ..old(self).ik_solvers@[solver_index as int] },
            ),
            solver_index >= old(self).ik_solvers@.len() ==> *final(self) == *old(self),
            *final(self) == (BoneSet { ik_solvers: final(self).ik_solvers, ..*old(self) }),
    {
        if solver_index < self.ik_solvers.len() {
            let mut sv = self.ik_solvers.remove(solver_index);
            sv.enabled = enabled;
            self.ik_solvers.insert(solver_index, sv);
            proof {
                assert(self.ik_solvers@ =~= old(self).ik_solvers@.update(
                    solver_index as int,
                    IkSolver { enabled, ..old(self).ik_solvers@[solver_index as int] },
                ));
            }
        }
    }

    /// Enable or disable the solver whose IK bone carries `ik_name`.
    pub fn set_ik_enabled_by_name(&mut self, ik_name: &String, enabled: bool)
        requires
            old(self).wf(),
        ensures
            final(self).wf(),
            final(self).ik_solvers@.len() == old(self).ik_solvers@.len(),
            *final(self) == (BoneSet { ik_solvers: final(self).ik_solvers, ..*old(self) }),
    {
        let mut si: usize = 0;
        let n_solvers = self.ik_solvers.len();
        let mut found: Option<usize> = None;
        while si < n_solvers
            invariant
                *self == *old(self),
                n_solvers == self.ik_solvers@.len(),
                si <= n_solvers,
                found matches Some(fi) ==> fi < n_solvers,
            decreases n_solvers - si,
        {
            let bi = self.ik_solvers[si].bone_index;
            if bi < self.names.len() && self.names[bi].eq(ik_name) {
                found = Some(si);
                break;
            }
            si = si + 1;
        }
        if let Some(fi) = found {
            self.set_ik_enabled(fi, enabled);
        }
    }

    /// Build the hierarchy: order the bones by transform level, check that
    /// the order is a permutation placing parents first, and seed the
    /// bind-pose transforms, the children flags and the skinning matrices.
    #[verifier::rlimit(100)]
    #[verifier::spinoff_prover]
    pub fn build_hierarchy(&mut self)
        requires
            old(self).wf(),
        ensures
            final(self).wf(),
            final(self).links@.len() == old(self).links@.len(),
            final(self).names@ == old(self).names@,
            forall|i: int|
                0 <= i < old(self).links@.len() ==> {
                    let a = old(self).links@[i];
                    let b = #[trigger] final(self).links@[i];
                    &&& b == BoneLink {
                        body_shift: b.body_shift,
                        local_to_world: b.local_to_world,
                        parent_to_world: b.parent_to_world,
                        inverse_init: b.inverse_init,
                        local_to_parent: b.local_to_parent,
                        is_leaf: b.is_leaf,
                        ..a
                    }
                    &&& b.body_shift == spec_bind_shift(old(self).links@, i)
                    &&& b.local_to_world == spec_m4_from_translation(a.initial_position)
                    &&& b.inverse_init == inverse_of(spec_m4_from_translation(a.initial_position))
                    &&& b.local_to_parent == spec_m4_from_translation(b.body_shift)
                },
            final(self).skinning_matrices@.len() == old(self).links@.len(),
            forall|i: int|
                0 <= i < old(self).links@.len() ==> #[trigger] final(self).skinning_matrices@[i]
                    == spec_skinning_matrix(final(self).links@[i]),
            // Completeness: when every parented bone sits strictly above
            // its parent's transform level, the order checks pass.
            (forall|i: int|
                0 <= i < old(self).links@.len() && spec_valid_parent(old(self).links@, i)
                    ==> old(self).links@[old(self).links@[i].parent_index as int].transform_level
                    < (#[trigger] old(self).links@[i]).transform_level) ==> final(self).hierarchy_ok,
    {
        let n = self.links.len();

        // Order the bone indices by transform level (insertion sort).
        let mut sorted: Vec<usize> = Vec::new();
        let mut i: usize = 0;
        while i < n
            invariant
                i <= n,
                sorted@.len() == i,
                forall|k: int| 0 <= k < i ==> (#[trigger] sorted@[k]) == k as usize,
            decreases n - i,
        {
            sorted.push(i);
            i = i + 1;
        }
        proof {
            assert forall|k: int| 0 <= k < n implies (#[trigger] sorted@[k]) < n by {}
            assert forall|j: int| 0 <= j < n implies #[trigger] spec_appears(sorted@, j) by {
                assert((sorted@[j]) as int == j);
            }
        }
        let mut a: usize = 1;
        while a < sorted.len()
            invariant
                sorted@.len() == n,
                n == self.links@.len(),
                *self == *old(self),
                forall|k: int| 0 <= k < n ==> (#[trigger] sorted@[k]) < n,
                forall|p: int, q: int|
                    0 <= p < q < n ==> (#[trigger] sorted@[p]) != (#[trigger] sorted@[q]),
                forall|j: int| 0 <= j < n ==> #[trigger] spec_appears(sorted@, j),
                forall|p: int, q: int|
                    0 <= p < q < a ==> self.links@[(#[trigger] sorted@[p]) as int].transform_level
                        <= self.links@[(#[trigger] sorted@[q]) as int].transform_level,
            decreases sorted@.len() - a,
        {
            let mut b: usize = a;
            while b > 0 && self.links[sorted[b]].transform_level < self.links[sorted[b
                - 1]].transform_level
                invariant
                    sorted@.len() == n,
                    n == self.links@.len(),
                    *self == *old(self),
                    b <= a < n,
                    forall|k: int| 0 <= k < n ==> (#[trigger] sorted@[k]) < n,
                    forall|p: int, q: int|
                        0 <= p < q < n ==> (#[trigger] sorted@[p]) != (#[trigger] sorted@[q]),
                    forall|j: int| 0 <= j < n ==> #[trigger] spec_appears(sorted@, j),
                    forall|p: int, q: int|
                        0 <= p < q <= a && p != b && q != b ==> self.links@[(
                        #[trigger] sorted@[p]) as int].transform_level <= self.links@[(
                        #[trigger] sorted@[q]) as int].transform_level,
                    forall|q: int|
                        b < q <= a ==> self.links@[sorted@[b as int] as int].transform_level
                            <= self.links@[(#[trigger] sorted@[q]) as int].transform_level,
                decreases b,
            {
                let ghost before = sorted@;
                let x = sorted[b];
                let y = sorted[b - 1];
                sorted.set(b, y);
                sorted.set(b - 1, x);
                proof {
                    assert forall|j: int|
                        0 <= j < n implies #[trigger] spec_appears(sorted@, j) by {
                        assert(spec_appears(before, j));
                        let kw = choose|k: int|
                            0 <= k < before.len() && (#[trigger] before[k]) as int == j;
                        if kw == b as int {
                            assert((sorted@[b - 1]) as int == j);
                        } else if kw == b - 1 {
                            assert((sorted@[b as int]) as int == j);
                        } else {
                            assert((sorted@[kw]) as int == j);
                        }
                    }
                }
                b = b - 1;
            }
            proof {
                assert forall|p: int, q: int|
                    0 <= p < q <= a implies self.links@[(#[trigger] sorted@[p])
                    as int].transform_level <= self.links@[(#[trigger] sorted@[q])
                    as int].transform_level by {
                    if q == b as int {
                        if p == b - 1 {
                        } else {
                            assert(self.links@[sorted@[p] as int].transform_level
                                <= self.links@[sorted@[b - 1] as int].transform_level);
                        }
                    } else if p == b as int {
                    }
                }
            }
            a = a + 1;
        }
        proof {
            assert forall|p: int, q: int|
                0 <= p < q < n implies self.links@[(#[trigger] sorted@[p])
                as int].transform_level <= self.links@[(#[trigger] sorted@[q])
                as int].transform_level by {}
        }

        // Check that the order is a permutation: assign ranks, refusing a
        // repeated or out-of-range entry.
        let mut ok = true;
        let mut rank: Vec<usize> = Vec::new();
        let mut i2: usize = 0;
        while i2 < n
            invariant
                i2 <= n,
                rank@.len() == i2,
                forall|j: int| 0 <= j < i2 ==> (#[trigger] rank@[j]) == n,
            decreases n - i2,
        {
            rank.push(n);
            i2 = i2 + 1;
        }
        let mut k: usize = 0;
        while k < n
            invariant
                sorted@.len() == n,
                rank@.len() == n,
                k <= n,
                ok,
                forall|k2: int| 0 <= k2 < n ==> (#[trigger] sorted@[k2]) < n,
                forall|p: int, q: int|
                    0 <= p < q < n ==> (#[trigger] sorted@[p]) != (#[trigger] sorted@[q]),
                forall|j: int| 0 <= j < n ==> #[trigger] spec_appears(sorted@, j),
                forall|p: int, q: int|
                    0 <= p < q < n ==> self.links@[(#[trigger] sorted@[p])
                        as int].transform_level <= self.links@[(#[trigger] sorted@[q])
                        as int].transform_level,
                forall|k2: int| 0 <= k2 < k ==> rank@[#[trigger] sorted@[k2] as int] == k2,
                forall|j: int|
                    0 <= j < n ==> ((#[trigger] rank@[j]) == n || (rank@[j] < k && sorted@[rank@[j] as int] == j)),
            decreases n - k,
        {
            let v = sorted[k];
            proof {
                // A repeated entry would contradict the distinctness the
                // sort preserved.
                if rank@[v as int] != n {
                    assert(sorted@[rank@[v as int] as int] == v);
                    assert(rank@[v as int] < k);
                    assert(false);
                }
            }
            if rank[v] == n {
                rank.set(v, k);
            } else {
                ok = false;
            }
            proof {
                assert forall|k2: int|
                    0 <= k2 < k + 1 implies rank@[#[trigger] sorted@[k2] as int] == k2 by {
                    if k2 < k {
                        let j = sorted@[k2] as int;
                        assert(rank@[j] == k2 || j == sorted@[k as int] as int);
                    }
                }
            }
            k = k + 1;
        }
        let mut j3: usize = 0;
        while j3 < n
            invariant
                rank@.len() == n,
                sorted@.len() == n,
                j3 <= n,
                ok,
                forall|k2: int| 0 <= k2 < n ==> (#[trigger] sorted@[k2]) < n,
                forall|j: int| 0 <= j < n ==> #[trigger] spec_appears(sorted@, j),
                forall|p: int, q: int|
                    0 <= p < q < n ==> self.links@[(#[trigger] sorted@[p])
                        as int].transform_level <= self.links@[(#[trigger] sorted@[q])
                        as int].transform_level,
                forall|k2: int| 0 <= k2 < n ==> rank@[#[trigger] sorted@[k2] as int] == k2,
                forall|j: int|
                    0 <= j < n ==> ((#[trigger] rank@[j]) == n || (rank@[j] < n && sorted@[rank@[j] as int] == j)),
                forall|j: int| 0 <= j < j3 ==> (#[trigger] rank@[j]) < n,
            decreases n - j3,
        {
            proof {
                // Every index appears in the order, so its rank was
                // assigned.
                assert(spec_appears(sorted@, j3 as int));
                let kw = choose|k2: int|
                    0 <= k2 < sorted@.len() && (#[trigger] sorted@[k2]) as int == j3 as int;
                assert(rank@[j3 as int] == kw);
            }
            if rank[j3] == n {
                ok = false;
            }
            j3 = j3 + 1;
        }

        // Check that every parent ranks before its children.
        let ghost strict_levels = forall|i5: int|
            0 <= i5 < old(self).links@.len() && spec_valid_parent(old(self).links@, i5)
                ==> old(self).links@[old(self).links@[i5].parent_index as int].transform_level < (
            #[trigger] old(self).links@[i5]).transform_level;
        let mut i4: usize = 0;
        while i4 < n
            invariant
                n == self.links@.len(),
                *self == *old(self),
                rank@.len() == n,
                sorted@.len() == n,
                i4 <= n,
                strict_levels == (forall|i5: int|
                    0 <= i5 < old(self).links@.len() && spec_valid_parent(old(self).links@, i5)
                        ==> old(self).links@[old(
                        self,
                    ).links@[i5].parent_index as int].transform_level < (#[trigger] old(
                        self,
                    ).links@[i5]).transform_level),
                forall|p2: int, q: int|
                    0 <= p2 < q < n ==> self.links@[(#[trigger] sorted@[p2])
                        as int].transform_level <= self.links@[(#[trigger] sorted@[q])
                        as int].transform_level,
                ok ==> forall|k2: int|
                    0 <= k2 < n ==> rank@[#[trigger] sorted@[k2] as int] == k2,
                ok ==> forall|j: int|
                    0 <= j < n ==> (#[trigger] rank@[j]) < n && sorted@[rank@[j] as int] == j,
                ok ==> forall|k2: int| 0 <= k2 < n ==> (#[trigger] sorted@[k2]) < n,
                ok ==> forall|i5: int|
                    0 <= i5 < i4 && spec_valid_parent(self.links@, i5) ==> rank@[self.links@[i5].parent_index as int] < #[trigger] rank@[i5],
                strict_levels ==> ok,
            decreases n - i4,
        {
            let p = self.links[i4].parent_index;
            if p >= 0 && (p as usize) < n {
                proof {
                    // With strictly increasing levels toward the children,
                    // a parent can never rank at or after its child.
                    if strict_levels && ok {
                        let pi = p as int;
                        assert(self.links@[pi].transform_level
                            < self.links@[i4 as int].transform_level);
                        if rank@[pi] >= rank@[i4 as int] {
                            if rank@[pi] == rank@[i4 as int] {
                                assert(sorted@[rank@[pi] as int] == p as usize);
                                assert(sorted@[rank@[i4 as int] as int] == i4);
                                assert(false);
                            } else {
                                assert(self.links@[sorted@[rank@[i4 as int] as int]
                                    as int].transform_level <= self.links@[sorted@[rank@[pi]
                                    as int] as int].transform_level);
                                assert(false);
                            }
                        }
                    }
                }
                if rank[p as usize] >= rank[i4] {
                    ok = false;
                }
            }
            i4 = i4 + 1;
        }

        // Seed the bind-pose transforms.
        let ghost links0 = self.links@;
        let mut i6: usize = 0;
        while i6 < n
            invariant
                n == self.links@.len(),
                links0 == old(self).links@,
                links0.len() == n,
                i6 <= n,
                *self == (BoneSet { links: self.links, ..*old(self) }),
                forall|j: int|
                    0 <= j < n ==> (#[trigger] self.links@[j]).parent_index == links0[j].parent_index,
                forall|j: int|
                    0 <= j < n ==> (#[trigger] self.links@[j]).initial_position == links0[j].initial_position,
                forall|j: int| i6 <= j < n ==> #[trigger] self.links@[j] == links0[j],
                forall|j: int|
                    0 <= j < i6 ==> {
                        let a = links0[j];
                        let b = #[trigger] self.links@[j];
                        &&& b == BoneLink {
                            body_shift: b.body_shift,
                            local_to_world: b.local_to_world,
                            parent_to_world: b.parent_to_world,
                            inverse_init: b.inverse_init,
                            local_to_parent: b.local_to_parent,
                            is_leaf: b.is_leaf,
                            ..a
                        }
                        &&& b.is_leaf == a.is_leaf
                        &&& b.body_shift == spec_bind_shift(links0, j)
                        &&& b.local_to_world == spec_m4_from_translation(a.initial_position)
                        &&& b.inverse_init == inverse_of(
                            spec_m4_from_translation(a.initial_position),
                        )
                        &&& b.local_to_parent == spec_m4_from_translation(b.body_shift)
                    },
            decreases n - i6,
        {
            let mut bone = self.links[i6];
            let pos = bone.initial_position;
            let p = bone.parent_index;
            let shift: V3 = if p >= 0 && (p as usize) < n {
                v3_sub(pos, self.links[p as usize].initial_position)
            } else {
                pos
            };
            bone.body_shift = shift;
            let init_global = crate::algebra::m4_from_translation(pos);
            bone.local_to_world = init_global;
            bone.inverse_init = m4_inverse(&init_global);
            bone.local_to_parent = crate::algebra::m4_from_translation(shift);
            self.links.set(i6, bone);
            proof {
                if p >= 0 && (p as usize) < n {
                    assert(links0[p as int].initial_position == self.links@[p as int].initial_position);
                }
            }
            i6 = i6 + 1;
        }

        // Mark the parents of existing bones as interior bones.
        let mut i7: usize = 0;
        while i7 < n
            invariant
                n == self.links@.len(),
                links0.len() == n,
                i7 <= n,
                *self == (BoneSet { links: self.links, ..*old(self) }),
                forall|j: int|
                    0 <= j < n ==> {
                        let a = links0[j];
                        let b = #[trigger] self.links@[j];
                        &&& b == BoneLink {
                            body_shift: b.body_shift,
                            local_to_world: b.local_to_world,
                            parent_to_world: b.parent_to_world,
                            inverse_init: b.inverse_init,
                            local_to_parent: b.local_to_parent,
                            is_leaf: b.is_leaf,
                            ..a
                        }
                        &&& b.body_shift == spec_bind_shift(links0, j)
                        &&& b.local_to_world == spec_m4_from_translation(a.initial_position)
                        &&& b.inverse_init == inverse_of(
                            spec_m4_from_translation(a.initial_position),
                        )
                        &&& b.local_to_parent == spec_m4_from_translation(b.body_shift)
                    },
            decreases n - i7,
        {
            let p = self.links[i7].parent_index;
            if p >= 0 && (p as usize) < n {
                let mut parent_bone = self.links[p as usize];
                parent_bone.is_leaf = false;
                self.links.set(p as usize, parent_bone);
            }
            i7 = i7 + 1;
        }

        // Seed the skinning matrices.
        let mut skinning: Vec<M4> = Vec::new();
        let mut i8: usize = 0;
        while i8 < n
            invariant
                n == self.links@.len(),
                i8 <= n,
                *self == (BoneSet { links: self.links, ..*old(self) }),
                skinning@.len() == i8,
                forall|j: int|
                    0 <= j < i8 ==> #[trigger] skinning@[j] == spec_skinning_matrix(
                        self.links@[j],
                    ),
            decreases n - i8,
        {
            skinning.push(self.links[i8].get_skinning_matrix());
            i8 = i8 + 1;
        }

        // Reset the physics flags to the new size.
        let mut phys: Vec<bool> = Vec::new();
        let mut i9: usize = 0;
        while i9 < n
            invariant
                i9 <= n,
                phys@.len() == i9,
            decreases n - i9,
        {
            phys.push(false);
            i9 = i9 + 1;
        }

        self.sorted_indices = sorted;
        self.rank = rank;
        self.skinning_matrices = skinning;
        self.physics_bone_flags = phys;
        self.hierarchy_ok = ok;
        self.needs_hierarchy_update = false;
        proof {
            if ok {
                assert(spec_topo_wf(self.links@, self.sorted_indices@, self.rank@));
            }
        }
    }

}

/// The facts one transform pass maintains against the entry state
/// `links0`: every matching bone outside physics carries a local transform
/// agreeing with its current inputs; bones of the other pass that no
/// matching IK chain reaches move at most in world fields; untouched
/// physics-owned bones do not move at all.
pub open spec fn spec_pass_facts(
    links0: Seq<BoneLink>,
    cur: Seq<BoneLink>,
    phys: Seq<bool>,
    solvers: Seq<IkSolver>,
    ap: bool,
) -> bool {
    &&& cur.len() == links0.len()
    &&& (forall|j: int|
        0 <= j < links0.len() && links0[j].deform_after_physics == ap && !phys[j]
            ==> spec_local_consistent(#[trigger] cur[j]))
    &&& (forall|j: int|
        0 <= j < links0.len() && links0[j].deform_after_physics != ap && !spec_in_matching_chain(
            solvers,
            links0,
            j,
            ap,
        ) ==> spec_same_but_world(links0[j], #[trigger] cur[j]))
    &&& (forall|j: int|
        0 <= j < links0.len() && phys[j] && !spec_in_matching_chain(solvers, links0, j, ap) && !(
        links0[j].deform_after_physics == ap && (links0[j].is_append_rotate
            || links0[j].is_append_translate)) ==> #[trigger] cur[j] == links0[j])
}

/// A world-only step (a propagation) keeps the pass facts.
proof fn lemma_pass_facts_transfer(
    links0: Seq<BoneLink>,
    pre: Seq<BoneLink>,
    post: Seq<BoneLink>,
    phys: Seq<bool>,
    solvers: Seq<IkSolver>,
    ap: bool,
)
    requires
        spec_pass_facts(links0, pre, phys, solvers, ap),
        pre.len() == post.len(),
        forall|j: int| 0 <= j < pre.len() ==> spec_same_but_world(pre[j], #[trigger] post[j]),
        forall|j: int| 0 <= j < pre.len() && phys[j] ==> #[trigger] post[j] == pre[j],
    ensures
        spec_pass_facts(links0, post, phys, solvers, ap),
{
    assert forall|j: int|
        0 <= j < links0.len() && links0[j].deform_after_physics == ap && !phys[j]
        implies spec_local_consistent(#[trigger] post[j]) by {
        lemma_world_change_facts(pre[j], post[j]);
    }
    assert forall|j: int|
        0 <= j < links0.len() && links0[j].deform_after_physics != ap && !spec_in_matching_chain(
            solvers,
            links0,
            j,
            ap,
        ) implies spec_same_but_world(links0[j], #[trigger] post[j]) by {
        lemma_same_but_world_trans(links0[j], pre[j], post[j]);
    }
}

/// An inherit application at a matching, inherit-flagged bone keeps the
/// pass facts.
proof fn lemma_pass_facts_append(
    links0: Seq<BoneLink>,
    pre: Seq<BoneLink>,
    post: Seq<BoneLink>,
    phys: Seq<bool>,
    solvers: Seq<IkSolver>,
    ap: bool,
    idx: int,
)
    requires
        spec_pass_facts(links0, pre, phys, solvers, ap),
        pre.len() == post.len(),
        0 <= idx < links0.len(),
        forall|j: int| 0 <= j < pre.len() && j != idx ==> #[trigger] post[j] == pre[j],
        post[idx] == spec_applied_append(pre, idx),
        links0[idx].deform_after_physics == ap,
        links0[idx].is_append_rotate || links0[idx].is_append_translate,
    ensures
        spec_pass_facts(links0, post, phys, solvers, ap),
{
    assert forall|j: int|
        0 <= j < links0.len() && links0[j].deform_after_physics == ap && !phys[j]
        implies spec_local_consistent(#[trigger] post[j]) by {
        if j == idx {
            let b = pre[idx];
            match b.append_config {
                None => {},
                Some(cfg) => {
                    if 0 <= cfg.parent && (cfg.parent as int) < pre.len() {
                        assert(spec_local_consistent(post[idx]));
                    }
                },
            }
        }
    }
}

/// An IK dispatch for a matching IK bone keeps the pass facts.
proof fn lemma_pass_facts_ik(
    links0: Seq<BoneLink>,
    pre: Seq<BoneLink>,
    post: Seq<BoneLink>,
    phys: Seq<bool>,
    solvers: Seq<IkSolver>,
    ap: bool,
    idx: int,
)
    requires
        spec_pass_facts(links0, pre, phys, solvers, ap),
        pre.len() == post.len(),
        0 <= idx < links0.len(),
        forall|j: int|
            0 <= j < pre.len() && !spec_in_chain_of(solvers, idx, j) ==> spec_same_but_world(
                pre[j],
                #[trigger] post[j],
            ),
        forall|j: int|
            0 <= j < pre.len() ==> (spec_same_but_world(pre[j], #[trigger] post[j]) || (
            spec_same_but_ik(pre[j], post[j]) && spec_local_consistent(post[j]))),
        forall|j: int|
            0 <= j < pre.len() && phys[j] && !spec_in_chain_of(solvers, idx, j)
                ==> #[trigger] post[j] == pre[j],
        links0[idx].deform_after_physics == ap,
        links0[idx].is_ik,
    ensures
        spec_pass_facts(links0, post, phys, solvers, ap),
{
    assert forall|j: int|
        0 <= j < links0.len() && links0[j].deform_after_physics == ap && !phys[j]
        implies spec_local_consistent(#[trigger] post[j]) by {
        if spec_same_but_world(pre[j], post[j]) {
            lemma_world_change_facts(pre[j], post[j]);
        }
    }
    assert forall|j: int|
        0 <= j < links0.len() && links0[j].deform_after_physics != ap && !spec_in_matching_chain(
            solvers,
            links0,
            j,
            ap,
        ) implies spec_same_but_world(links0[j], #[trigger] post[j]) by {
        assert(!spec_in_chain_of(solvers, idx, j)) by {
            if spec_in_chain_of(solvers, idx, j) {
                let k = choose|k: int|
                    0 <= k < solvers.len() && (#[trigger] solvers[k]).bone_index as int == idx
                        && crate::ik::spec_chain_member(solvers[k].config.links@, j);
                assert(spec_in_matching_chain(solvers, links0, j, ap));
            }
        }
        lemma_same_but_world_trans(links0[j], pre[j], post[j]);
    }
    assert forall|j: int|
        0 <= j < links0.len() && phys[j] && !spec_in_matching_chain(solvers, links0, j, ap) && !(
        links0[j].deform_after_physics == ap && (links0[j].is_append_rotate
            || links0[j].is_append_translate)) implies #[trigger] post[j] == links0[j] by {
        assert(!spec_in_chain_of(solvers, idx, j)) by {
            if spec_in_chain_of(solvers, idx, j) {
                let k = choose|k: int|
                    0 <= k < solvers.len() && (#[trigger] solvers[k]).bone_index as int == idx
                        && crate::ik::spec_chain_member(solvers[k].config.links@, j);
                assert(spec_in_matching_chain(solvers, links0, j, ap));
            }
        }
    }
}

impl BoneSet {
    /// Run one transform pass over the bones whose after-physics flag
    /// matches: rebuild their local transforms from the animation inputs,
    /// propagate world transforms, apply inherit transforms and IK, and
    /// propagate once more. After the pass every bone not owned by physics
    /// satisfies the hierarchy equation
    /// `local_to_world == parent.local_to_world * local_to_parent`.
    #[verifier::rlimit(100)]
    #[verifier::spinoff_prover]
    pub fn update_transforms(&mut self, after_physics: bool)
        requires
            old(self).wf(),
        ensures
            final(self).wf(),
            final(self).links@.len() == old(self).links@.len(),
            *final(self) == (BoneSet { links: final(self).links, ..*old(self) }),
            forall|i: int|
                0 <= i < old(self).links@.len() ==> spec_same_but_derived(
                    old(self).links@[i],
                    #[trigger] final(self).links@[i],
                ),
            old(self).hierarchy_ok ==> forall|i: int|
                0 <= i < final(self).links@.len() && !final(self).physics_bone_flags@[i]
                    ==> spec_consistent_at(final(self).links@, i),
            // Pass discipline: a bone of the other pass that no matching
            // IK chain reaches moves at most in its world fields, keeping
            // its local transform, inherit inputs and IK state.
            forall|i: int|
                0 <= i < old(self).links@.len() && old(self).links@[i].deform_after_physics
                    != after_physics && !spec_in_matching_chain(
                    old(self).ik_solvers@,
                    old(self).links@,
                    i,
                    after_physics,
                ) ==> spec_same_but_world(old(self).links@[i], #[trigger] final(self).links@[i]),
            // A physics-owned bone that no matching chain or matching
            // inherit setup touches keeps exactly what the write-back left.
            old(self).hierarchy_ok ==> forall|i: int|
                0 <= i < old(self).links@.len() && old(self).physics_bone_flags@[i]
                    && !spec_in_matching_chain(
                    old(self).ik_solvers@,
                    old(self).links@,
                    i,
                    after_physics,
                ) && !(old(self).links@[i].deform_after_physics == after_physics && (old(
                    self,
                ).links@[i].is_append_rotate || old(self).links@[i].is_append_translate))
                    ==> #[trigger] final(self).links@[i] == old(self).links@[i],
            // Every matching bone the physics system does not own ends with
            // a local transform that agrees with its final inputs.
            old(self).hierarchy_ok ==> forall|i: int|
                0 <= i < old(self).links@.len() && old(self).links@[i].deform_after_physics
                    == after_physics && !old(self).physics_bone_flags@[i]
                    ==> spec_local_consistent(#[trigger] final(self).links@[i]),
    {
        if !self.hierarchy_ok {
            return;
        }
        let n = self.links.len();

        // Local transforms of the bones this pass owns.
        let ghost links0 = self.links@;
        let mut i: usize = 0;
        while i < n
            invariant
                n == self.links@.len(),
                links0.len() == n,
                old(self).hierarchy_ok,
                self.hierarchy_ok,
                self.wf(),
                links0 == old(self).links@,
                i <= n,
                self.physics_bone_flags@.len() == n,
                *self == (BoneSet { links: self.links, ..*old(self) }),
                forall|j: int|
                    0 <= j < n ==> spec_same_but_derived(links0[j], #[trigger] self.links@[j]),
                forall|j: int| i <= j < n ==> #[trigger] self.links@[j] == links0[j],
                forall|j: int|
                    0 <= j < i && links0[j].deform_after_physics == after_physics
                        && !self.physics_bone_flags@[j] ==> spec_local_consistent(
                        #[trigger] self.links@[j],
                    ),
                forall|j: int|
                    0 <= j < i && !(links0[j].deform_after_physics == after_physics
                        && !self.physics_bone_flags@[j]) ==> #[trigger] self.links@[j]
                        == links0[j],
            decreases n - i,
        {
            if self.links[i].deform_after_physics == after_physics && !self.physics_bone_flags[i] {
                let mut b = self.links[i];
                b.compute_local_transform();
                self.links.set(i, b);
                proof {
                    lemma_topo_preserved(links0, self.links@, self.sorted_indices@, self.rank@);
                    assert(spec_local_consistent(self.links@[i as int]));
                }
            }
            i = i + 1;
        }
        proof {
            assert forall|j: int|
                0 <= j < n && links0[j].deform_after_physics == after_physics
                    && !self.physics_bone_flags@[j] implies spec_local_consistent(
                #[trigger] self.links@[j],
            ) by {}
        }

        let ghost solvers0 = self.ik_solvers@;
        let ghost ap = after_physics;
        proof {
            assert(spec_pass_facts(links0, self.links@, self.physics_bone_flags@, solvers0, ap));
        }
        let ghost pre1 = self.links@;
        propagate_world(
            &mut self.links,
            &self.sorted_indices,
            &self.rank,
            &self.physics_bone_flags,
        );
        proof {
            lemma_pass_facts_transfer(links0, pre1, self.links@, self.physics_bone_flags@, solvers0, ap);
        }

        // Inherit transforms and IK, in topological order.
        let mut k: usize = 0;
        while k < n
            invariant
                n == self.links@.len(),
                links0.len() == n,
                old(self).hierarchy_ok,
                self.hierarchy_ok,
                self.wf(),
                links0 == old(self).links@,
                solvers0 == self.ik_solvers@,
                ap == after_physics,
                k <= n,
                self.physics_bone_flags@.len() == n,
                *self == (BoneSet { links: self.links, ..*old(self) }),
                forall|j: int|
                    0 <= j < n ==> spec_same_but_derived(links0[j], #[trigger] self.links@[j]),
                spec_pass_facts(links0, self.links@, self.physics_bone_flags@, solvers0, ap),
            decreases n - k,
        {
            let idx = self.sorted_indices[k];
            if self.links[idx].deform_after_physics == after_physics {
                let needs_append = self.links[idx].is_append_rotate
                    || self.links[idx].is_append_translate;
                if needs_append {
                    let ghost pre = self.links@;
                    self.apply_append_transform(idx);
                    proof {
                        assert(spec_same_but_derived(links0[idx as int], pre[idx as int]));
                        assert(links0[idx as int].deform_after_physics == after_physics);
                        assert(links0[idx as int].is_append_rotate || links0[idx
                            as int].is_append_translate);
                        lemma_pass_facts_append(
                            links0,
                            pre,
                            self.links@,
                            self.physics_bone_flags@,
                            solvers0,
                            ap,
                            idx as int,
                        );
                    }
                    let ghost pre2 = self.links@;
                    propagate_world(
                        &mut self.links,
                        &self.sorted_indices,
                        &self.rank,
                        &self.physics_bone_flags,
                    );
                    proof {
                        lemma_pass_facts_transfer(links0, pre2, self.links@, self.physics_bone_flags@, solvers0, ap);
                    }
                }
                if self.links[idx].is_ik {
                    let ghost pre3 = self.links@;
                    proof {
                        assert(spec_same_but_derived(links0[idx as int], pre3[idx as int]));
                        assert(links0[idx as int].deform_after_physics == after_physics);
                        assert(links0[idx as int].is_ik);
                    }
                    self.solve_ik(idx);
                    proof {
                        lemma_pass_facts_ik(
                            links0,
                            pre3,
                            self.links@,
                            self.physics_bone_flags@,
                            solvers0,
                            ap,
                            idx as int,
                        );
                    }
                }
            }
            k = k + 1;
        }

        // Settle every remaining world transform.
        let ghost pre4 = self.links@;
        propagate_world(
            &mut self.links,
            &self.sorted_indices,
            &self.rank,
            &self.physics_bone_flags,
        );
        proof {
            lemma_pass_facts_transfer(links0, pre4, self.links@, self.physics_bone_flags@, solvers0, ap);
        }
    }

    /// Apply the inherit transform of the bone at `index`: copy the
    /// configured fraction of the source bone's rotation and translation
    /// and rebuild the local transform.
    fn apply_append_transform(&mut self, index: usize)
        requires
            old(self).wf(),
            index < old(self).links@.len(),
        ensures
            final(self).wf(),
            final(self).links@.len() == old(self).links@.len(),
            *final(self) == (BoneSet { links: final(self).links, ..*old(self) }),
            forall|i: int|
                0 <= i < old(self).links@.len() ==> spec_same_but_derived(
                    old(self).links@[i],
                    #[trigger] final(self).links@[i],
                ),
            forall|i: int|
                0 <= i < old(self).links@.len() && i != index ==> #[trigger] final(self).links@[i]
                    == old(self).links@[i],
            final(self).links@[index as int] == spec_applied_append(
                old(self).links@,
                index as int,
            ),
    {
        let cfg = match self.links[index].append_config {
            Some(c) => c,
            None => {
                return ;
            },
        };
        let n = self.links.len();
        if cfg.parent < 0 || (cfg.parent as usize) >= n {
            return ;
        }
        let src = cfg.parent as usize;
        let rate = cfg.rate;
        let is_local = self.links[index].is_append_local;
        let mut b = self.links[index];
        if b.is_append_rotate {
            let source_bone = self.links[src];
            let base: Q4 = if is_local {
                source_bone.animation_rotate
            } else if source_bone.append_config.is_some() {
                source_bone.append_rotate
            } else {
                source_bone.animation_rotate
            };
            let with_ik: Q4 = if source_bone.enable_ik {
                q_mul(source_bone.ik_rotate, base)
            } else {
                base
            };
            b.append_rotate = q_slerp(q4_identity(), with_ik, rate);
        }
        if b.is_append_translate {
            let source_bone = self.links[src];
            let base_t: V3 = if is_local {
                source_bone.animation_translate
            } else if source_bone.append_config.is_some() {
                source_bone.append_translate
            } else {
                source_bone.animation_translate
            };
            b.append_translate = v3_scale(base_t, rate);
        }
        b.compute_local_transform();
        self.links.set(index, b);
        proof {
            if self.hierarchy_ok {
                lemma_topo_preserved(
                    old(self).links@,
                    self.links@,
                    self.sorted_indices@,
                    self.rank@,
                );
            }
        }
    }

    /// Run the IK solver registered for the bone at `bone_index`, if any.
    fn solve_ik(&mut self, bone_index: usize)
        requires
            old(self).wf(),
            old(self).hierarchy_ok,
        ensures
            final(self).wf(),
            final(self).links@.len() == old(self).links@.len(),
            final(self).hierarchy_ok,
            *final(self) == (BoneSet { links: final(self).links, ..*old(self) }),
            forall|i: int|
                0 <= i < old(self).links@.len() ==> spec_same_but_derived(
                    old(self).links@[i],
                    #[trigger] final(self).links@[i],
                ),
            // Only the chains of solvers serving this bone may turn;
            // everything else moves at most in world fields.
            forall|i: int|
                0 <= i < old(self).links@.len() && !spec_in_chain_of(
                    old(self).ik_solvers@,
                    bone_index as int,
                    i,
                ) ==> spec_same_but_world(old(self).links@[i], #[trigger] final(self).links@[i]),
            forall|i: int|
                0 <= i < old(self).links@.len() ==> (spec_same_but_world(
                    old(self).links@[i],
                    #[trigger] final(self).links@[i],
                ) || (spec_same_but_ik(old(self).links@[i], final(self).links@[i])
                    && spec_local_consistent(final(self).links@[i]))),
            forall|i: int|
                0 <= i < old(self).links@.len() && old(self).physics_bone_flags@[i]
                    && !spec_in_chain_of(old(self).ik_solvers@, bone_index as int, i)
                    ==> #[trigger] final(self).links@[i] == old(self).links@[i],
    {
        let n_solvers = self.ik_solvers.len();
        let mut si: usize = 0;
        let mut found: Option<usize> = None;
        while si < n_solvers
            invariant
                *self == *old(self),
                n_solvers == self.ik_solvers@.len(),
                si <= n_solvers,
                found matches Some(fi) ==> fi < n_solvers && self.ik_solvers@[fi as int].bone_index
                    == bone_index,
            decreases n_solvers - si,
        {
            if self.ik_solvers[si].bone_index == bone_index {
                found = Some(si);
                break;
            }
            si = si + 1;
        }
        if let Some(fi) = found {
            let solver = &self.ik_solvers[fi];
            solver.solve(
                &mut self.links,
                &self.sorted_indices,
                &self.rank,
                &self.physics_bone_flags,
            );
            proof {
                assert forall|i: int|
                    0 <= i < old(self).links@.len() && !spec_in_chain_of(
                        old(self).ik_solvers@,
                        bone_index as int,
                        i,
                    ) implies spec_same_but_world(
                    old(self).links@[i],
                    #[trigger] self.links@[i],
                ) by {
                    if crate::ik::spec_chain_member(
                        old(self).ik_solvers@[fi as int].config.links@,
                        i,
                    ) {
                        assert(spec_in_chain_of(old(self).ik_solvers@, bone_index as int, i));
                    }
                }
            }
        }
    }
}

/// The bone at `index` after an outside world transform lands on it: the
/// world transform verbatim, the local transform rederived against the
/// parent's world transform, and the animation inputs extracted from it.
pub open spec fn spec_written_global(links: Seq<BoneLink>, index: int, transform: M4) -> BoneLink {
    let local = if spec_valid_parent(links, index) {
        matmul_of(inverse_of(links[links[index].parent_index as int].local_to_world), transform)
    } else {
        transform
    };
    BoneLink {
        local_to_world: transform,
        local_to_parent: local,
        animation_rotate: srt_rotation_of(local),
        animation_translate: spec_v3_sub(
            V3 { x: local.m[12], y: local.m[13], z: local.m[14] },
            links[index].body_shift,
        ),
        ..links[index]
    }
}

/// The links and subtree marks after the refresh walk from rank `k` on:
/// each bone (other than the root) outside physics whose parent is marked
/// re-reads its world transform from the parent and joins the subtree.
pub open spec fn spec_refresh_fold(
    sorted: Seq<usize>,
    phys: Seq<bool>,
    root: int,
    links: Seq<BoneLink>,
    marks: Seq<bool>,
    k: int,
) -> (Seq<BoneLink>, Seq<bool>)
    decreases sorted.len() - k,
{
    if k < 0 || k >= sorted.len() {
        (links, marks)
    } else {
        let idx = sorted[k] as int;
        let step = if 0 <= idx < links.len() && idx != root && idx < phys.len() && !phys[idx] && {
            let p = links[idx].parent_index;
            &&& 0 <= p
            &&& (p as int) < links.len()
            &&& (p as int) < marks.len()
            &&& marks[p as int]
        } {
            (
                links.update(
                    idx,
                    BoneLink {
                        local_to_world: matmul_of(
                            links[links[idx].parent_index as int].local_to_world,
                            links[idx].local_to_parent,
                        ),
                        ..links[idx]
                    },
                ),
                marks.update(idx, true),
            )
        } else {
            (links, marks)
        };
        spec_refresh_fold(sorted, phys, root, step.0, step.1, k + 1)
    }
}

impl BoneSet {
    /// Overwrite a bone's world transform from outside (physics
    /// write-back): rederive its local transform against the parent,
    /// extract the animation inputs, and refresh the descendants' world
    /// transforms in topological order.
    pub fn set_global_transform(&mut self, index: usize, transform: M4)
        requires
            old(self).wf(),
        ensures
            final(self).wf(),
            final(self).links@.len() == old(self).links@.len(),
            *final(self) == (BoneSet { links: final(self).links, ..*old(self) }),
            index < old(self).links@.len() ==> {
                let b = final(self).links@[index as int];
                &&& b.local_to_world == transform
                &&& b.local_to_parent == (if spec_valid_parent(old(self).links@, index as int) {
                    matmul_of(
                        inverse_of(
                            old(self).links@[old(
                                self,
                            ).links@[index as int].parent_index as int].local_to_world,
                        ),
                        transform,
                    )
                } else {
                    transform
                })
                &&& b.animation_rotate == srt_rotation_of(b.local_to_parent)
                &&& b.animation_translate == spec_v3_sub(
                    (V3 {
                        x: b.local_to_parent.m[12],
                        y: b.local_to_parent.m[13],
                        z: b.local_to_parent.m[14],
                    }),
                    b.body_shift,
                )
            },
            forall|i: int|
                0 <= i < old(self).links@.len() && i != index ==> spec_same_but_world(
                    old(self).links@[i],
                    #[trigger] final(self).links@[i],
                ),
            index >= old(self).links@.len() ==> *final(self) == *old(self),
            // The whole result: the written bone, then the subtree walk
            // re-reading each reached descendant's world transform.
            index < old(self).links@.len() && old(self).hierarchy_ok ==> final(self).links@
                == spec_refresh_fold(
                old(self).sorted_indices@,
                old(self).physics_bone_flags@,
                index as int,
                old(self).links@.update(
                    index as int,
                    spec_written_global(old(self).links@, index as int, transform),
                ),
                Seq::new(old(self).links@.len(), |j: int| j == index as int),
                0,
            ).0,
            index < old(self).links@.len() && !old(self).hierarchy_ok ==> final(self).links@
                == old(self).links@.update(
                index as int,
                spec_written_global(old(self).links@, index as int, transform),
            ),
    {
        let n = self.links.len();
        if index >= n {
            return ;
        }
        let ghost links0 = self.links@;
        let mut b = self.links[index];
        b.local_to_world = transform;
        let p = b.parent_index;
        let local_transform: M4 = if p >= 0 && (p as usize) < n {
            let parent_global = self.links[p as usize].local_to_world;
            m4_mul(&m4_inverse(&parent_global), &transform)
        } else {
            transform
        };
        b.local_to_parent = local_transform;
        let (_, rotation, translation) = m4_to_scale_rotation_translation(&local_transform);
        b.animation_rotate = rotation;
        b.animation_translate = v3_sub(translation, b.body_shift);
        self.links.set(index, b);
        proof {
            assert(self.links@ =~= links0.update(
                index as int,
                spec_written_global(links0, index as int, transform),
            ));
            if self.hierarchy_ok {
                lemma_topo_preserved(links0, self.links@, self.sorted_indices@, self.rank@);
            }
        }
        self.refresh_descendants(index);
    }

    /// Overwrite a bone's world transform without touching its
    /// descendants (used between physics write-backs, which visit every
    /// owned bone anyway).
    pub fn set_global_transform_physics(&mut self, index: usize, transform: M4)
        requires
            old(self).wf(),
        ensures
            final(self).wf(),
            final(self).links@.len() == old(self).links@.len(),
            *final(self) == (BoneSet { links: final(self).links, ..*old(self) }),
            index < old(self).links@.len() ==> {
                let b = final(self).links@[index as int];
                &&& b.local_to_world == transform
                &&& b.local_to_parent == (if spec_valid_parent(old(self).links@, index as int) {
                    matmul_of(
                        inverse_of(
                            old(self).links@[old(
                                self,
                            ).links@[index as int].parent_index as int].local_to_world,
                        ),
                        transform,
                    )
                } else {
                    transform
                })
                &&& b.animation_rotate == srt_rotation_of(b.local_to_parent)
                &&& b.animation_translate == spec_v3_sub(
                    (V3 {
                        x: b.local_to_parent.m[12],
                        y: b.local_to_parent.m[13],
                        z: b.local_to_parent.m[14],
                    }),
                    b.body_shift,
                )
                &&& final(self).links@ == old(self).links@.update(index as int, b)
            },
            index >= old(self).links@.len() ==> *final(self) == *old(self),
    {
        let n = self.links.len();
        if index >= n {
            return ;
        }
        let ghost links0 = self.links@;
        let mut b = self.links[index];
        b.local_to_world = transform;
        let p = b.parent_index;
        let local_transform: M4 = if p >= 0 && (p as usize) < n {
            let parent_global = self.links[p as usize].local_to_world;
            m4_mul(&m4_inverse(&parent_global), &transform)
        } else {
            transform
        };
        b.local_to_parent = local_transform;
        let (_, rotation, translation) = m4_to_scale_rotation_translation(&local_transform);
        b.animation_rotate = rotation;
        b.animation_translate = v3_sub(translation, b.body_shift);
        self.links.set(index, b);
        proof {
            if self.hierarchy_ok {
                lemma_topo_preserved(links0, self.links@, self.sorted_indices@, self.rank@);
            }
        }
    }

    /// Overwrite a bone's world transform from a position and a rotation.
    pub fn set_bone_physics_transform(&mut self, index: usize, position: V3, rotation: Q4)
        requires
            old(self).wf(),
        ensures
            final(self).wf(),
            final(self).links@.len() == old(self).links@.len(),
            *final(self) == (BoneSet { links: final(self).links, ..*old(self) }),
    {
        let transform = m4_from_rotation_translation(rotation, position);
        self.set_global_transform(index, transform);
    }

    /// Refresh the world transforms of the bones below `root` in the
    /// topological order, walking parent marks instead of recursing.
    fn refresh_descendants(&mut self, root: usize)
        requires
            old(self).wf(),
            root < old(self).links@.len(),
        ensures
            final(self).wf(),
            final(self).links@.len() == old(self).links@.len(),
            *final(self) == (BoneSet { links: final(self).links, ..*old(self) }),
            forall|i: int|
                0 <= i < old(self).links@.len() && i != root ==> spec_same_but_world(
                    old(self).links@[i],
                    #[trigger] final(self).links@[i],
                ),
            final(self).links@[root as int] == old(self).links@[root as int],
            !old(self).hierarchy_ok ==> *final(self) == *old(self),
            old(self).hierarchy_ok ==> final(self).links@ == spec_refresh_fold(
                old(self).sorted_indices@,
                old(self).physics_bone_flags@,
                root as int,
                old(self).links@,
                Seq::new(old(self).links@.len(), |j: int| j == root as int),
                0,
            ).0,
    {
        if !self.hierarchy_ok {
            return ;
        }
        let n = self.links.len();
        let mut in_subtree: Vec<bool> = Vec::new();
        let mut i: usize = 0;
        while i < n
            invariant
                i <= n,
                in_subtree@.len() == i,
                forall|j: int| 0 <= j < i ==> #[trigger] in_subtree@[j] == (j == root as int),
            decreases n - i,
        {
            in_subtree.push(i == root);
            i = i + 1;
        }
        let ghost links0 = self.links@;
        let ghost marks0 = in_subtree@;
        proof {
            assert(marks0 =~= Seq::new(links0.len(), |j: int| j == root as int));
        }
        let mut k: usize = 0;
        while k < n
            invariant
                n == self.links@.len(),
                links0.len() == n,
                links0 == old(self).links@,
                self.hierarchy_ok,
                self.wf(),
                in_subtree@.len() == n,
                root < n,
                k <= n,
                *self == (BoneSet { links: self.links, ..*old(self) }),
                spec_refresh_fold(
                    self.sorted_indices@,
                    self.physics_bone_flags@,
                    root as int,
                    links0,
                    marks0,
                    0,
                ) == spec_refresh_fold(
                    self.sorted_indices@,
                    self.physics_bone_flags@,
                    root as int,
                    self.links@,
                    in_subtree@,
                    k as int,
                ),
                forall|j: int|
                    0 <= j < n && j != root ==> spec_same_but_world(
                        links0[j],
                        #[trigger] self.links@[j],
                    ),
                self.links@[root as int] == links0[root as int],
            decreases n - k,
        {
            let ghost pre_links = self.links@;
            let ghost pre_marks = in_subtree@;
            let idx = self.sorted_indices[k];
            if idx != root && !self.physics_bone_flags[idx] {
                let mut b = self.links[idx];
                let p = b.parent_index;
                if p >= 0 && (p as usize) < n && in_subtree[p as usize] {
                    let pw = self.links[p as usize].local_to_world;
                    b.local_to_world = m4_mul(&pw, &b.local_to_parent);
                    self.links.set(idx, b);
                    in_subtree.set(idx, true);
                    proof {
                        lemma_topo_preserved(
                            links0,
                            self.links@,
                            self.sorted_indices@,
                            self.rank@,
                        );
                        assert(self.links@ =~= pre_links.update(
                            idx as int,
                            BoneLink {
                                local_to_world: matmul_of(
                                    pre_links[pre_links[idx as int].parent_index
                                        as int].local_to_world,
                                    pre_links[idx as int].local_to_parent,
                                ),
                                ..pre_links[idx as int]
                            },
                        ));
                    }
                }
            }
            proof {
                assert(spec_refresh_fold(
                    self.sorted_indices@,
                    self.physics_bone_flags@,
                    root as int,
                    pre_links,
                    pre_marks,
                    k as int,
                ) == spec_refresh_fold(
                    self.sorted_indices@,
                    self.physics_bone_flags@,
                    root as int,
                    self.links@,
                    in_subtree@,
                    k as int + 1,
                ));
            }
            k = k + 1;
        }
        proof {
            assert(spec_refresh_fold(
                self.sorted_indices@,
                self.physics_bone_flags@,
                root as int,
                self.links@,
                in_subtree@,
                n as int,
            ) == (self.links@, in_subtree@));
        }
    }

    /// Refresh the world transform of every bone not named in `flags` from
    /// its parent, in topological order.
    pub fn update_non_physics_children(&mut self, flags: &Vec<bool>)
        requires
            old(self).wf(),
        ensures
            final(self).wf(),
            final(self).links@.len() == old(self).links@.len(),
            *final(self) == (BoneSet { links: final(self).links, ..*old(self) }),
            forall|i: int|
                0 <= i < old(self).links@.len() ==> spec_same_but_world(
                    old(self).links@[i],
                    #[trigger] final(self).links@[i],
                ),
    {
        if !self.hierarchy_ok {
            return ;
        }
        let n = self.links.len();
        let ghost links0 = self.links@;
        let mut k: usize = 0;
        while k < n
            invariant
                n == self.links@.len(),
                links0.len() == n,
                links0 == old(self).links@,
                self.hierarchy_ok,
                self.wf(),
                k <= n,
                *self == (BoneSet { links: self.links, ..*old(self) }),
                forall|j: int|
                    0 <= j < n ==> spec_same_but_world(links0[j], #[trigger] self.links@[j]),
            decreases n - k,
        {
            let idx = self.sorted_indices[k];
            let flagged = idx < flags.len() && flags[idx];
            if !flagged {
                let mut b = self.links[idx];
                let p = b.parent_index;
                if p >= 0 && (p as usize) < n {
                    let pw = self.links[p as usize].local_to_world;
                    b.local_to_world = m4_mul(&pw, &b.local_to_parent);
                    self.links.set(idx, b);
                    proof {
                        lemma_topo_preserved(
                            links0,
                            self.links@,
                            self.sorted_indices@,
                            self.rank@,
                        );
                    }
                }
            }
            k = k + 1;
        }
    }
}

} // verus!
