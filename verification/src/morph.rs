//! The morph engine: vertex, bone, UV, material, group and flip morphs
//! composed with cycle-safe, depth-bounded recursion.
//!
//! A tick resets the per-material accumulators and the per-vertex UV
//! deltas, then dispatches every morph whose weight is active (its
//! magnitude exceeds the threshold). With every weight inactive the pass
//! provably leaves the position buffer, the UV deltas and the material
//! accumulators untouched.

use vstd::prelude::*;

use crate::algebra::{
    q_mul, q_normalize, qnorm_of, quat_mul_of, spec_v2_add, spec_v2_scale, spec_v3_add,
    spec_v3_mul, spec_v3_one, spec_v3_scale, spec_v3_zero, spec_v4_add, spec_v4_mul, spec_v4_one,
    spec_v4_scale, spec_v4_zero, v2_add, v2_scale, v2_zero, v3_add, v3_mul, v3_one, v3_scale,
    v3_zero, v4_add, v4_mul, v4_one, v4_scale, v4_zero, Q4, V2, V3, V4,
};
use crate::bone::BoneLink;
use crate::bone_set::BoneSet;
use crate::scalar::{
    add_bits, fadd, fclamp, ffloor, flt, fmul, fsub, float_to_usize, float_to_usize_val,
    floor_bits, mul_bits, spec_clamp, spec_is_nan, spec_lt, spec_mag, spec_neg, sub_bits,
    usize_to_float, usize_to_float_bits, INF_BITS,
};

verus! {

/// IEEE 754 bit pattern of `1.0_f32`.
pub const MO_ONE: u32 = 0x3F80_0000;

/// IEEE 754 bit pattern of `1e-3_f32`: weights whose magnitude does not
/// exceed it are inactive.
pub const MORPH_WEIGHT_EPSILON_BITS: u32 = 0x3A83_126F;

/// Largest group-morph recursion depth; deeper references are cut off.
pub const MAX_GROUP_MORPH_DEPTH: u32 = 16;

/// Whether a weight drives its morph: its magnitude exceeds the threshold
/// (for non-NaN values the magnitude bits order like the absolute values,
/// so this is the float comparison `|w| > 1e-3`; NaNs are inactive).
pub open spec fn spec_weight_active(w: u32) -> bool {
    !spec_is_nan(w) && spec_mag(w) > MORPH_WEIGHT_EPSILON_BITS
}

/// Whether a weight drives its morph.
pub fn weight_active(w: u32) -> (r: bool)
    ensures
        r == spec_weight_active(w),
{
    let m = w & crate::scalar::MAG_MASK;
    m <= INF_BITS && m > MORPH_WEIGHT_EPSILON_BITS
}

/// The kinds a morph can have.
#[derive(Clone, Copy, Debug, PartialEq, Eq, Structural)]
pub enum MorphType {
    /// Offsets vertex positions.
    Vertex,
    /// Offsets bone animation inputs.
    Bone,
    /// Offsets texture coordinates.
    Uv,
    /// Offsets the first additional texture coordinate channel.
    AdditionalUv1,
    /// Accepted and ignored.
    AdditionalUv2,
    /// Accepted and ignored.
    AdditionalUv3,
    /// Accepted and ignored.
    AdditionalUv4,
    /// Scales or offsets material parameters.
    Material,
    /// Applies child morphs scaled by per-child influences.
    Group,
    /// Applies the one child selected by the weight.
    Flip,
    /// Accepted and ignored.
    Impulse,
}

/// One vertex offset.
#[derive(Clone, Copy, Debug)]
pub struct VertexMorphOffset {
    /// The vertex moved.
    pub vertex_index: u32,
    /// The added position delta at weight one.
    pub offset: V3,
}

/// One bone offset.
#[derive(Clone, Copy, Debug)]
pub struct BoneMorphOffset {
    /// The bone driven.
    pub bone_index: u32,
    /// The added translation at weight one.
    pub translation: V3,
    /// The composed rotation at weight one.
    pub rotation: Q4,
}

/// One texture-coordinate offset.
#[derive(Clone, Copy, Debug)]
pub struct UvMorphOffset {
    /// The vertex whose coordinates move.
    pub vertex_index: u32,
    /// The added delta at weight one; only the first two lanes apply.
    pub offset: V4,
}

/// One material offset: the nine-way parameter set, the operation and the
/// target material (negative for all).
#[derive(Clone, Copy, Debug)]
pub struct MaterialMorphOffset {
    /// The material changed; negative applies to every material.
    pub material_index: i32,
    /// Zero multiplies, anything else adds.
    pub operation: u8,
    /// Diffuse color and opacity.
    pub diffuse: V4,
    /// Specular color.
    pub specular: V3,
    /// Specular strength.
    pub specular_strength: u32,
    /// Ambient color.
    pub ambient: V3,
    /// Edge color and opacity.
    pub edge_color: V4,
    /// Edge size.
    pub edge_size: u32,
    /// Texture tint.
    pub texture_tint: V4,
    /// Environment tint.
    pub environment_tint: V4,
    /// Toon tint.
    pub toon_tint: V4,
}

/// One group or flip child: the referenced morph and its influence.
#[derive(Clone, Copy, Debug)]
pub struct GroupMorphOffset {
    /// Index of the referenced morph.
    pub morph_index: u32,
    /// Its influence.
    pub influence: u32,
}

/// One morph: name, kind, current weight and the offset lists its kind
/// reads.
#[derive(Clone, Debug)]
pub struct Morph {
    /// The morph's name.
    pub name: String,
    /// Its kind.
    pub morph_type: MorphType,
    /// Its current weight, rewritten every tick.
    pub weight: u32,
    /// Offsets of a vertex morph.
    pub vertex_offsets: Vec<VertexMorphOffset>,
    /// Offsets of a bone morph.
    pub bone_offsets: Vec<BoneMorphOffset>,
    /// Offsets of a material morph.
    pub material_offsets: Vec<MaterialMorphOffset>,
    /// Offsets of a UV morph.
    pub uv_offsets: Vec<UvMorphOffset>,
    /// Children of a group or flip morph.
    pub group_offsets: Vec<GroupMorphOffset>,
}

impl Morph {
    /// A fresh morph of the given kind with weight zero and no offsets.
    pub fn new(name: String, morph_type: MorphType) -> (r: Morph)
        ensures
            r.name@ == name@,
            r.morph_type == morph_type,
            r.weight == 0,
            r.vertex_offsets@.len() == 0,
            r.bone_offsets@.len() == 0,
            r.material_offsets@.len() == 0,
            r.uv_offsets@.len() == 0,
            r.group_offsets@.len() == 0,
    {
        Morph {
            name,
            morph_type,
            weight: 0,
            vertex_offsets: Vec::new(),
            bone_offsets: Vec::new(),
            material_offsets: Vec::new(),
            uv_offsets: Vec::new(),
            group_offsets: Vec::new(),
        }
    }

    /// The morph's name.
    pub fn get_name(&self) -> (r: &String)
        ensures
            r@ == self.name@,
    {
        &self.name
    }

    /// The morph's current weight.
    pub fn get_weight(&self) -> (r: u32)
        ensures
            r == self.weight,
    {
        self.weight
    }

    /// Overwrite the morph's weight.
    pub fn set_weight(&mut self, weight: u32)
        ensures
            *final(self) == (Morph { weight, ..*old(self) }),
    {
        self.weight = weight;
    }

    /// Clear the morph's weight.
    pub fn reset(&mut self)
        ensures
            *final(self) == (Morph { weight: 0, ..*old(self) }),
    {
        self.weight = 0;
    }
}

/// The nine-way material parameter set a morph scales or offsets.
#[derive(Clone, Copy, Debug)]
pub struct MaterialMorphValues {
    /// Diffuse color and opacity.
    pub diffuse: V4,
    /// Specular color.
    pub specular: V3,
    /// Specular strength.
    pub specular_strength: u32,
    /// Ambient color.
    pub ambient: V3,
    /// Edge color and opacity.
    pub edge_color: V4,
    /// Edge size.
    pub edge_size: u32,
    /// Texture tint.
    pub texture_tint: V4,
    /// Environment tint.
    pub environment_tint: V4,
    /// Toon tint.
    pub toon_tint: V4,
}

/// The multiplicative identity: every parameter one.
pub open spec fn spec_mul_identity() -> MaterialMorphValues {
    MaterialMorphValues {
        diffuse: spec_v4_one(),
        specular: spec_v3_one(),
        specular_strength: MO_ONE,
        ambient: spec_v3_one(),
        edge_color: spec_v4_one(),
        edge_size: MO_ONE,
        texture_tint: spec_v4_one(),
        environment_tint: spec_v4_one(),
        toon_tint: spec_v4_one(),
    }
}

/// The additive identity: every parameter zero.
pub open spec fn spec_add_identity() -> MaterialMorphValues {
    MaterialMorphValues {
        diffuse: spec_v4_zero(),
        specular: spec_v3_zero(),
        specular_strength: 0,
        ambient: spec_v3_zero(),
        edge_color: spec_v4_zero(),
        edge_size: 0,
        texture_tint: spec_v4_zero(),
        environment_tint: spec_v4_zero(),
        toon_tint: spec_v4_zero(),
    }
}

impl MaterialMorphValues {
    /// The multiplicative identity: every parameter one.
    pub fn mul_identity() -> (r: MaterialMorphValues)
        ensures
            r == spec_mul_identity(),
    {
        MaterialMorphValues {
            diffuse: v4_one(),
            specular: v3_one(),
            specular_strength: MO_ONE,
            ambient: v3_one(),
            edge_color: v4_one(),
            edge_size: MO_ONE,
            texture_tint: v4_one(),
            environment_tint: v4_one(),
            toon_tint: v4_one(),
        }
    }

    /// The additive identity: every parameter zero.
    pub fn add_identity() -> (r: MaterialMorphValues)
        ensures
            r == spec_add_identity(),
    {
        MaterialMorphValues {
            diffuse: v4_zero(),
            specular: v3_zero(),
            specular_strength: 0,
            ambient: v3_zero(),
            edge_color: v4_zero(),
            edge_size: 0,
            texture_tint: v4_zero(),
            environment_tint: v4_zero(),
            toon_tint: v4_zero(),
        }
    }

    /// Fold a multiplying offset in: each accumulated parameter is scaled
    /// by `1 * (1 - w) + offset * w`, so several multiplying morphs
    /// compose.
    fn apply_multiply(&mut self, offset: &MaterialMorphOffset, weight: u32)
        ensures
            *final(self) == spec_material_multiply(*old(self), *offset, weight),
    {
        let inv_w = fsub(MO_ONE, weight);
        let one4 = v4_one();
        let one3 = v3_one();
        self.diffuse = v4_mul(self.diffuse, v4_add(v4_scale(one4, inv_w), v4_scale(offset.diffuse, weight)));
        self.specular = v3_mul(self.specular, v3_add(v3_scale(one3, inv_w), v3_scale(offset.specular, weight)));
        self.specular_strength = fmul(
            self.specular_strength,
            fadd(inv_w, fmul(offset.specular_strength, weight)),
        );
        self.ambient = v3_mul(self.ambient, v3_add(v3_scale(one3, inv_w), v3_scale(offset.ambient, weight)));
        self.edge_color = v4_mul(self.edge_color, v4_add(v4_scale(one4, inv_w), v4_scale(offset.edge_color, weight)));
        self.edge_size = fmul(self.edge_size, fadd(inv_w, fmul(offset.edge_size, weight)));
        self.texture_tint = v4_mul(self.texture_tint, v4_add(v4_scale(one4, inv_w), v4_scale(offset.texture_tint, weight)));
        self.environment_tint = v4_mul(
            self.environment_tint,
            v4_add(v4_scale(one4, inv_w), v4_scale(offset.environment_tint, weight)),
        );
        self.toon_tint = v4_mul(self.toon_tint, v4_add(v4_scale(one4, inv_w), v4_scale(offset.toon_tint, weight)));
    }

    /// Fold an adding offset in: each parameter gains `offset * w`.
    fn apply_additive(&mut self, offset: &MaterialMorphOffset, weight: u32)
        ensures
            *final(self) == spec_material_additive(*old(self), *offset, weight),
    {
        self.diffuse = v4_add(self.diffuse, v4_scale(offset.diffuse, weight));
        self.specular = v3_add(self.specular, v3_scale(offset.specular, weight));
        self.specular_strength = fadd(
            self.specular_strength,
            fmul(offset.specular_strength, weight),
        );
        self.ambient = v3_add(self.ambient, v3_scale(offset.ambient, weight));
        self.edge_color = v4_add(self.edge_color, v4_scale(offset.edge_color, weight));
        self.edge_size = fadd(self.edge_size, fmul(offset.edge_size, weight));
        self.texture_tint = v4_add(self.texture_tint, v4_scale(offset.texture_tint, weight));
        self.environment_tint = v4_add(
            self.environment_tint,
            v4_scale(offset.environment_tint, weight),
        );
        self.toon_tint = v4_add(self.toon_tint, v4_scale(offset.toon_tint, weight));
    }
}

/// The accumulators of one material: the renderer computes
/// `final = base * mul + add`.
#[derive(Clone, Copy, Debug)]
pub struct MaterialMorphResult {
    /// Multiplicative accumulation, starting at one.
    pub mul: MaterialMorphValues,
    /// Additive accumulation, starting at zero.
    pub add: MaterialMorphValues,
}

/// The identity accumulators: multiply one, add zero.
pub open spec fn spec_material_result_identity() -> MaterialMorphResult {
    MaterialMorphResult { mul: spec_mul_identity(), add: spec_add_identity() }
}

impl Default for MaterialMorphResult {
    /// The identity accumulators.
    fn default() -> (r: MaterialMorphResult)
        ensures
            r == spec_material_result_identity(),
    {
        MaterialMorphResult {
            mul: MaterialMorphValues::mul_identity(),
            add: MaterialMorphValues::add_identity(),
        }
    }
}

impl MaterialMorphResult {
    /// Back to the identity accumulators.
    pub fn reset(&mut self)
        ensures
            *final(self) == spec_material_result_identity(),
    {
        *self = MaterialMorphResult::default();
    }
}

/// The morph store with the per-material and per-vertex accumulation
/// buffers.
pub struct MorphManager {
    /// The morphs.
    pub morphs: Vec<Morph>,
    /// The per-material accumulators.
    pub material_morph_results: Vec<MaterialMorphResult>,
    /// Number of materials.
    pub material_count: usize,
    /// The per-vertex texture-coordinate deltas.
    pub uv_morph_deltas: Vec<V2>,
    /// Number of vertices.
    pub vertex_count: usize,
}

impl MorphManager {
    /// An empty store.
    pub fn new() -> (r: MorphManager)
        ensures
            r.morphs@.len() == 0,
            r.material_morph_results@.len() == 0,
            r.uv_morph_deltas@.len() == 0,
    {
        MorphManager {
            morphs: Vec::new(),
            material_morph_results: Vec::new(),
            material_count: 0,
            uv_morph_deltas: Vec::new(),
            vertex_count: 0,
        }
    }

    /// Size the per-material accumulators, at the identity.
    pub fn set_material_count(&mut self, count: usize)
        ensures
            final(self).material_count == count,
            final(self).material_morph_results@.len() == count,
            forall|i: int|
                0 <= i < count ==> #[trigger] final(self).material_morph_results@[i]
                    == spec_material_result_identity(),
            *final(self) == (MorphManager {
                material_count: count,
                material_morph_results: final(self).material_morph_results,
                ..*old(self)
            }),
    {
        self.material_count = count;
        let mut results: Vec<MaterialMorphResult> = Vec::new();
        let mut i: usize = 0;
        while i < count
            invariant
                i <= count,
                results@.len() == i,
                forall|j: int|
                    0 <= j < i ==> #[trigger] results@[j] == spec_material_result_identity(),
            decreases count - i,
        {
            results.push(MaterialMorphResult::default());
            i = i + 1;
        }
        self.material_morph_results = results;
    }

    /// Size the per-vertex UV deltas, at zero.
    pub fn set_vertex_count(&mut self, count: usize)
        ensures
            final(self).vertex_count == count,
            final(self).uv_morph_deltas@.len() == count,
            forall|i: int|
                0 <= i < count ==> #[trigger] final(self).uv_morph_deltas@[i]
                    == crate::algebra::spec_v2_zero(),
            *final(self) == (MorphManager {
                vertex_count: count,
                uv_morph_deltas: final(self).uv_morph_deltas,
                ..*old(self)
            }),
    {
        self.vertex_count = count;
        let mut deltas: Vec<V2> = Vec::new();
        let mut i: usize = 0;
        while i < count
            invariant
                i <= count,
                deltas@.len() == i,
                forall|j: int|
                    0 <= j < i ==> #[trigger] deltas@[j] == crate::algebra::spec_v2_zero(),
            decreases count - i,
        {
            deltas.push(v2_zero());
            i = i + 1;
        }
        self.uv_morph_deltas = deltas;
    }

    /// Append a morph.
    pub fn add_morph(&mut self, morph: Morph)
        requires
            old(self).morphs@.len() < usize::MAX,
        ensures
            final(self).morphs@.len() == old(self).morphs@.len() + 1,
            final(self).morphs@.last() == morph,
            forall|i: int|
                0 <= i < old(self).morphs@.len() ==> #[trigger] final(self).morphs@[i] == old(
                    self,
                ).morphs@[i],
            *final(self) == (MorphManager { morphs: final(self).morphs, ..*old(self) }),
    {
        self.morphs.push(morph);
    }

    /// Index of the first morph carrying `name`, if any.
    pub fn find_morph_by_name(&self, name: &String) -> (r: Option<usize>)
        ensures
            match r {
                Some(i) => i < self.morphs@.len() && self.morphs@[i as int].name@ == name@,
                None => forall|j: int|
                    0 <= j < self.morphs@.len() ==> (#[trigger] self.morphs@[j]).name@ != name@,
            },
    {
        let mut i: usize = 0;
        while i < self.morphs.len()
            invariant
                i <= self.morphs@.len(),
                forall|j: int| 0 <= j < i ==> (#[trigger] self.morphs@[j]).name@ != name@,
            decreases self.morphs@.len() - i,
        {
            if self.morphs[i].name.eq(name) {
                return Some(i);
            }
            i = i + 1;
        }
        None
    }

    /// Number of morphs.
    pub fn morph_count(&self) -> (r: usize)
        ensures
            r == self.morphs@.len(),
    {
        self.morphs.len()
    }

    /// The morph at `index`, when it exists.
    pub fn get_morph(&self, index: usize) -> (r: Option<&Morph>)
        ensures
            match r {
                Some(m) => index < self.morphs@.len() && *m == self.morphs@[index as int],
                None => index >= self.morphs@.len(),
            },
    {
        if index < self.morphs.len() {
            Some(&self.morphs[index])
        } else {
            None
        }
    }

    /// Overwrite one morph's weight; out-of-range indices do nothing.
    pub fn set_morph_weight(&mut self, index: usize, weight: u32)
        ensures
            index < old(self).morphs@.len() ==> final(self).morphs@ == old(self).morphs@.update(
                index as int,
                Morph { weight, ..old(self).morphs@[index as int] },
            ),
            index >= old(self).morphs@.len() ==> *final(self) == *old(self),
            *final(self) == (MorphManager { morphs: final(self).morphs, ..*old(self) }),
    {
        if index < self.morphs.len() {
            let mut m = self.morphs.remove(index);
            m.weight = weight;
            self.morphs.insert(index, m);
            proof {
                assert(self.morphs@ =~= old(self).morphs@.update(
                    index as int,
                    Morph { weight, ..old(self).morphs@[index as int] },
                ));
            }
        }
    }

    /// One morph's weight, zero when out of range.
    pub fn get_morph_weight(&self, index: usize) -> (r: u32)
        ensures
            r == if index < self.morphs@.len() {
                self.morphs@[index as int].weight
            } else {
                0u32
            },
    {
        if index < self.morphs.len() {
            self.morphs[index].weight
        } else {
            0
        }
    }

    /// Clear every morph's weight.
    pub fn reset_all_weights(&mut self)
        ensures
            final(self).morphs@.len() == old(self).morphs@.len(),
            forall|i: int|
                0 <= i < old(self).morphs@.len() ==> #[trigger] final(self).morphs@[i] == (Morph {
                    weight: 0,
                    ..old(self).morphs@[i]
                }),
            *final(self) == (MorphManager { morphs: final(self).morphs, ..*old(self) }),
    {
        let n = self.morphs.len();
        let mut i: usize = 0;
        while i < n
            invariant
                n == self.morphs@.len(),
                old(self).morphs@.len() == n,
                i <= n,
                forall|j: int|
                    0 <= j < i ==> #[trigger] self.morphs@[j] == (Morph {
                        weight: 0,
                        ..old(self).morphs@[j]
                    }),
                forall|j: int| i <= j < n ==> #[trigger] self.morphs@[j] == old(self).morphs@[j],
                *self == (MorphManager { morphs: self.morphs, ..*old(self) }),
            decreases n - i,
        {
            let mut m = self.morphs.remove(i);
            m.weight = 0;
            self.morphs.insert(i, m);
            proof {
                assert forall|j: int| i + 1 <= j < n implies #[trigger] self.morphs@[j] == old(
                    self,
                ).morphs@[j] by {}
            }
            i = i + 1;
        }
    }

    /// The accumulators of one material, when it exists.
    pub fn get_material_morph_result(&self, material_index: usize) -> (r: Option<
        MaterialMorphResult,
    >)
        ensures
            r == if material_index < self.material_morph_results@.len() {
                Some(self.material_morph_results@[material_index as int])
            } else {
                None::<MaterialMorphResult>
            },
    {
        if material_index < self.material_morph_results.len() {
            Some(self.material_morph_results[material_index])
        } else {
            None
        }
    }

    /// All material accumulators.
    pub fn get_material_morph_results(&self) -> (r: &Vec<MaterialMorphResult>)
        ensures
            r@ == self.material_morph_results@,
    {
        &self.material_morph_results
    }

    /// All per-vertex UV deltas.
    pub fn get_uv_morph_deltas(&self) -> (r: &Vec<V2>)
        ensures
            r@ == self.uv_morph_deltas@,
    {
        &self.uv_morph_deltas
    }

    /// Run the full morph pass: reset the material accumulators and the UV
    /// deltas, then dispatch every morph whose weight is active. With every
    /// weight inactive the pass leaves the position buffer and the bones
    /// untouched, the UV deltas zero and the accumulators at the identity.
    #[verifier::rlimit(100)]
    #[verifier::spinoff_prover]
    pub fn apply_morphs(&mut self, bones: &mut BoneSet, positions: &mut Vec<V3>)
        requires
            old(bones).wf(),
        ensures
            final(bones).wf(),
            final(self).morphs@ == old(self).morphs@,
            final(self).material_morph_results@.len() == old(
                self,
            ).material_morph_results@.len(),
            final(self).uv_morph_deltas@.len() == old(self).uv_morph_deltas@.len(),
            final(positions)@.len() == old(positions)@.len(),
            final(bones).links@.len() == old(bones).links@.len(),
            *final(bones) == (BoneSet { links: final(bones).links, ..*old(bones) }),
            forall|i: int|
                0 <= i < old(bones).links@.len() ==> spec_same_but_anim(
                    old(bones).links@[i],
                    #[trigger] final(bones).links@[i],
                ),
            (forall|m: int|
                0 <= m < old(self).morphs@.len() ==> !spec_weight_active(
                    (#[trigger] old(self).morphs@[m]).weight,
                )) ==> {
                &&& final(positions)@ == old(positions)@
                &&& *final(bones) == *old(bones)
                &&& (forall|i: int|
                    0 <= i < final(self).uv_morph_deltas@.len() ==> #[trigger] final(self).uv_morph_deltas@[i] == crate::algebra::spec_v2_zero())
                &&& (forall|i: int|
                    0 <= i < final(self).material_morph_results@.len() ==> #[trigger] final(self).material_morph_results@[i] == spec_material_result_identity())
            },
            // The pass equals the functional model: reset accumulators,
            // then every active morph applied at depth zero, in order.
            ({
                let reset_results = Seq::new(
                    old(self).material_morph_results@.len(),
                    |j: int| spec_material_result_identity(),
                );
                let reset_uv = Seq::new(
                    old(self).uv_morph_deltas@.len(),
                    |j: int| crate::algebra::spec_v2_zero(),
                );
                (
                    final(self).material_morph_results@,
                    final(self).uv_morph_deltas@,
                    final(positions)@,
                    final(bones).links@,
                ) == spec_apply_all_morphs(
                    old(self).morphs@,
                    reset_results,
                    reset_uv,
                    old(positions)@,
                    old(bones).links@,
                    0,
                )
            }),
    {
        let nm = self.material_morph_results.len();
        let mut i: usize = 0;
        while i < nm
            invariant
                nm == self.material_morph_results@.len(),
                i <= nm,
                forall|j: int|
                    0 <= j < i ==> #[trigger] self.material_morph_results@[j]
                        == spec_material_result_identity(),
                *self == (MorphManager {
                    material_morph_results: self.material_morph_results,
                    ..*old(self)
                }),
            decreases nm - i,
        {
            self.material_morph_results.set(i, MaterialMorphResult::default());
            i = i + 1;
        }
        let nu = self.uv_morph_deltas.len();
        let mut i2: usize = 0;
        while i2 < nu
            invariant
                nu == self.uv_morph_deltas@.len(),
                i2 <= nu,
                forall|j: int|
                    0 <= j < i2 ==> #[trigger] self.uv_morph_deltas@[j]
                        == crate::algebra::spec_v2_zero(),
                nm == self.material_morph_results@.len(),
                forall|j: int|
                    0 <= j < nm ==> #[trigger] self.material_morph_results@[j]
                        == spec_material_result_identity(),
                *self == (MorphManager {
                    material_morph_results: self.material_morph_results,
                    uv_morph_deltas: self.uv_morph_deltas,
                    ..*old(self)
                }),
            decreases nu - i2,
        {
            self.uv_morph_deltas.set(i2, v2_zero());
            i2 = i2 + 1;
        }

        let ghost bones0 = *bones;
        let ghost positions0 = positions@;
        let ghost reset_results = self.material_morph_results@;
        let ghost reset_uv = self.uv_morph_deltas@;
        proof {
            assert(reset_results =~= Seq::new(
                old(self).material_morph_results@.len(),
                |j: int| spec_material_result_identity(),
            ));
            assert(reset_uv =~= Seq::new(
                old(self).uv_morph_deltas@.len(),
                |j: int| crate::algebra::spec_v2_zero(),
            ));
        }
        let count = self.morphs.len();
        let mut m: usize = 0;
        while m < count
            invariant
                count == self.morphs@.len(),
                self.morphs@ == old(self).morphs@,
                m <= count,
                spec_apply_all_morphs(
                    self.morphs@,
                    reset_results,
                    reset_uv,
                    positions0,
                    bones0.links@,
                    0,
                ) == spec_apply_all_morphs(
                    self.morphs@,
                    self.material_morph_results@,
                    self.uv_morph_deltas@,
                    positions@,
                    bones.links@,
                    m as int,
                ),
                bones.wf(),
                bones.links@.len() == bones0.links@.len(),
                *bones == (BoneSet { links: bones.links, ..bones0 }),
                positions@.len() == positions0.len(),
                nm == self.material_morph_results@.len(),
                nu == self.uv_morph_deltas@.len(),
                *self == (MorphManager {
                    material_morph_results: self.material_morph_results,
                    uv_morph_deltas: self.uv_morph_deltas,
                    ..*old(self)
                }),
                forall|i3: int|
                    0 <= i3 < bones0.links@.len() ==> spec_same_but_anim(
                        bones0.links@[i3],
                        #[trigger] bones.links@[i3],
                    ),
                (forall|m2: int|
                    0 <= m2 < count ==> !spec_weight_active(
                        (#[trigger] self.morphs@[m2]).weight,
                    )) ==> {
                    &&& positions@ == positions0
                    &&& *bones == bones0
                    &&& (forall|j: int|
                        0 <= j < nu ==> #[trigger] self.uv_morph_deltas@[j]
                            == crate::algebra::spec_v2_zero())
                    &&& (forall|j: int|
                        0 <= j < nm ==> #[trigger] self.material_morph_results@[j]
                            == spec_material_result_identity())
                },
            decreases count - m,
        {
            let ghost mid = (
                self.material_morph_results@,
                self.uv_morph_deltas@,
                positions@,
                bones.links@,
            );
            let weight = self.morphs[m].weight;
            if weight_active(weight) {
                let ghost pre = *bones;
                apply_single_morph(
                    &self.morphs,
                    &mut self.material_morph_results,
                    &mut self.uv_morph_deltas,
                    m,
                    weight,
                    bones,
                    positions,
                    0,
                );
                proof {
                    assert forall|i3: int|
                        0 <= i3 < bones0.links@.len() implies spec_same_but_anim(
                        bones0.links@[i3],
                        #[trigger] bones.links@[i3],
                    ) by {
                        lemma_same_but_anim_trans(
                            bones0.links@[i3],
                            pre.links@[i3],
                            bones.links@[i3],
                        );
                    }
                    assert(!(forall|m2: int|
                        0 <= m2 < count ==> !spec_weight_active(
                            (#[trigger] self.morphs@[m2]).weight,
                        ))) by {
                        assert(spec_weight_active((self.morphs@[m as int]).weight));
                    }
                }
            }
            proof {
                assert(spec_apply_all_morphs(
                    self.morphs@,
                    mid.0,
                    mid.1,
                    mid.2,
                    mid.3,
                    m as int,
                ) == spec_apply_all_morphs(
                    self.morphs@,
                    self.material_morph_results@,
                    self.uv_morph_deltas@,
                    positions@,
                    bones.links@,
                    m as int + 1,
                ));
            }
            m = m + 1;
        }
        proof {
            assert(spec_apply_all_morphs(
                self.morphs@,
                self.material_morph_results@,
                self.uv_morph_deltas@,
                positions@,
                bones.links@,
                count as int,
            ) == (
                self.material_morph_results@,
                self.uv_morph_deltas@,
                positions@,
                bones.links@,
            ));
        }
    }
}

/// Whether `b` differs from `a` at most in its animation inputs.
pub open spec fn spec_same_but_anim(a: BoneLink, b: BoneLink) -> bool {
    b == BoneLink {
        animation_translate: b.animation_translate,
        animation_rotate: b.animation_rotate,
        ..a
    }
}

/// Differing at most in the animation inputs is transitive.
pub proof fn lemma_same_but_anim_trans(a: BoneLink, b: BoneLink, c: BoneLink)
    requires
        spec_same_but_anim(a, b),
        spec_same_but_anim(b, c),
    ensures
        spec_same_but_anim(a, c),
{
}


/// The multiplying accumulator after one offset at weight `w`: each
/// parameter is scaled by `1 * (1 - w) + offset * w`.
pub open spec fn spec_material_multiply(
    acc: MaterialMorphValues,
    off: MaterialMorphOffset,
    w: u32,
) -> MaterialMorphValues {
    let inv_w = sub_bits(MO_ONE, w);
    MaterialMorphValues {
        diffuse: spec_v4_mul(
            acc.diffuse,
            spec_v4_add(spec_v4_scale(spec_v4_one(), inv_w), spec_v4_scale(off.diffuse, w)),
        ),
        specular: spec_v3_mul(
            acc.specular,
            spec_v3_add(spec_v3_scale(spec_v3_one(), inv_w), spec_v3_scale(off.specular, w)),
        ),
        specular_strength: mul_bits(
            acc.specular_strength,
            add_bits(inv_w, mul_bits(off.specular_strength, w)),
        ),
        ambient: spec_v3_mul(
            acc.ambient,
            spec_v3_add(spec_v3_scale(spec_v3_one(), inv_w), spec_v3_scale(off.ambient, w)),
        ),
        edge_color: spec_v4_mul(
            acc.edge_color,
            spec_v4_add(spec_v4_scale(spec_v4_one(), inv_w), spec_v4_scale(off.edge_color, w)),
        ),
        edge_size: mul_bits(acc.edge_size, add_bits(inv_w, mul_bits(off.edge_size, w))),
        texture_tint: spec_v4_mul(
            acc.texture_tint,
            spec_v4_add(spec_v4_scale(spec_v4_one(), inv_w), spec_v4_scale(off.texture_tint, w)),
        ),
        environment_tint: spec_v4_mul(
            acc.environment_tint,
            spec_v4_add(
                spec_v4_scale(spec_v4_one(), inv_w),
                spec_v4_scale(off.environment_tint, w),
            ),
        ),
        toon_tint: spec_v4_mul(
            acc.toon_tint,
            spec_v4_add(spec_v4_scale(spec_v4_one(), inv_w), spec_v4_scale(off.toon_tint, w)),
        ),
    }
}

/// The adding accumulator after one offset at weight `w`: each parameter
/// gains `offset * w`.
pub open spec fn spec_material_additive(
    acc: MaterialMorphValues,
    off: MaterialMorphOffset,
    w: u32,
) -> MaterialMorphValues {
    MaterialMorphValues {
        diffuse: spec_v4_add(acc.diffuse, spec_v4_scale(off.diffuse, w)),
        specular: spec_v3_add(acc.specular, spec_v3_scale(off.specular, w)),
        specular_strength: add_bits(acc.specular_strength, mul_bits(off.specular_strength, w)),
        ambient: spec_v3_add(acc.ambient, spec_v3_scale(off.ambient, w)),
        edge_color: spec_v4_add(acc.edge_color, spec_v4_scale(off.edge_color, w)),
        edge_size: add_bits(acc.edge_size, mul_bits(off.edge_size, w)),
        texture_tint: spec_v4_add(acc.texture_tint, spec_v4_scale(off.texture_tint, w)),
        environment_tint: spec_v4_add(acc.environment_tint, spec_v4_scale(off.environment_tint, w)),
        toon_tint: spec_v4_add(acc.toon_tint, spec_v4_scale(off.toon_tint, w)),
    }
}

/// One material accumulator pair after one offset: operation zero scales
/// the multiplier, anything else grows the adder.
pub open spec fn spec_apply_material_offset(
    r: MaterialMorphResult,
    off: MaterialMorphOffset,
    w: u32,
) -> MaterialMorphResult {
    if off.operation == 0 {
        MaterialMorphResult { mul: spec_material_multiply(r.mul, off, w), ..r }
    } else {
        MaterialMorphResult { add: spec_material_additive(r.add, off, w), ..r }
    }
}

/// The accumulators after the offsets from index `k` on: a negative target
/// broadcasts to every material, an in-range target updates one, and an
/// out-of-range target changes nothing.
pub open spec fn spec_apply_material_offsets(
    offsets: Seq<MaterialMorphOffset>,
    w: u32,
    results: Seq<MaterialMorphResult>,
    k: int,
) -> Seq<MaterialMorphResult>
    decreases offsets.len() - k,
{
    if k < 0 || k >= offsets.len() {
        results
    } else {
        let off = offsets[k];
        let cur = if off.material_index < 0 {
            results.map_values(|r: MaterialMorphResult| spec_apply_material_offset(r, off, w))
        } else if (off.material_index as int) < results.len() {
            results.update(
                off.material_index as int,
                spec_apply_material_offset(results[off.material_index as int], off, w),
            )
        } else {
            results
        };
        spec_apply_material_offsets(offsets, w, cur, k + 1)
    }
}

/// The position buffer after the vertex offsets from index `k` on: each
/// in-range vertex gains its delta scaled by the weight.
pub open spec fn spec_apply_vertex_offsets(
    offsets: Seq<VertexMorphOffset>,
    w: u32,
    positions: Seq<V3>,
    k: int,
) -> Seq<V3>
    decreases offsets.len() - k,
{
    if k < 0 || k >= offsets.len() {
        positions
    } else {
        let off = offsets[k];
        let cur = if (off.vertex_index as int) < positions.len() {
            positions.update(
                off.vertex_index as int,
                spec_v3_add(positions[off.vertex_index as int], spec_v3_scale(off.offset, w)),
            )
        } else {
            positions
        };
        spec_apply_vertex_offsets(offsets, w, cur, k + 1)
    }
}

/// The texture-coordinate deltas after the offsets from index `k` on: each
/// in-range vertex gains the offset's first two lanes scaled by the weight.
pub open spec fn spec_apply_uv_offsets(
    offsets: Seq<UvMorphOffset>,
    w: u32,
    deltas: Seq<V2>,
    k: int,
) -> Seq<V2>
    decreases offsets.len() - k,
{
    if k < 0 || k >= offsets.len() {
        deltas
    } else {
        let off = offsets[k];
        let cur = if (off.vertex_index as int) < deltas.len() {
            deltas.update(
                off.vertex_index as int,
                spec_v2_add(
                    deltas[off.vertex_index as int],
                    spec_v2_scale(V2 { x: off.offset.x, y: off.offset.y }, w),
                ),
            )
        } else {
            deltas
        };
        spec_apply_uv_offsets(offsets, w, cur, k + 1)
    }
}

/// The weighted short-arc rotation of a bone offset: the quaternion is
/// flipped when its scalar part is negative, its vector part scaled by the
/// weight, its scalar pulled toward one, and the result renormalised.
pub open spec fn spec_weighted_morph_rotation(q: Q4, w: u32) -> Q4 {
    let f = if spec_lt(q.w, 0) {
        Q4 { x: spec_neg(q.x), y: spec_neg(q.y), z: spec_neg(q.z), w: spec_neg(q.w) }
    } else {
        q
    };
    qnorm_of(
        Q4 {
            x: mul_bits(f.x, w),
            y: mul_bits(f.y, w),
            z: mul_bits(f.z, w),
            w: sub_bits(MO_ONE, mul_bits(sub_bits(MO_ONE, f.w), w)),
        },
    )
}

/// The bones after the bone offsets from index `k` on: each in-range bone
/// gains the scaled translation on its animation translation and the
/// weighted short-arc rotation composed onto its animation rotation.
pub open spec fn spec_apply_bone_offsets(
    offsets: Seq<BoneMorphOffset>,
    w: u32,
    links: Seq<BoneLink>,
    k: int,
) -> Seq<BoneLink>
    decreases offsets.len() - k,
{
    if k < 0 || k >= offsets.len() {
        links
    } else {
        let off = offsets[k];
        let idx = off.bone_index as int;
        let cur = if idx < links.len() {
            links.update(
                idx,
                BoneLink {
                    animation_translate: spec_v3_add(
                        links[idx].animation_translate,
                        spec_v3_scale(off.translation, w),
                    ),
                    animation_rotate: quat_mul_of(
                        links[idx].animation_rotate,
                        spec_weighted_morph_rotation(off.rotation, w),
                    ),
                    ..links[idx]
                },
            )
        } else {
            links
        };
        spec_apply_bone_offsets(offsets, w, cur, k + 1)
    }
}

/// The flip child picked by a weight: the floor of the clamped weight
/// times the child count, capped at the last child.
pub open spec fn spec_flip_selection(w: u32, count: int) -> int {
    let raw = float_to_usize_val(
        floor_bits(mul_bits(spec_clamp(w, 0, MO_ONE), usize_to_float_bits(count as usize))),
    ) as int;
    if raw > count - 1 {
        count - 1
    } else {
        raw
    }
}

/// The whole morph state one morph application yields: the material
/// accumulators, the texture-coordinate deltas, the vertex positions and
/// the bones, in that order. Past the depth budget, below the weight
/// threshold or out of range nothing happens; a group applies its valid
/// non-self children at the product weight; a flip applies the one picked
/// child at that child's own influence; the inert kinds change nothing.
pub open spec fn spec_apply_morph(
    morphs: Seq<Morph>,
    results: Seq<MaterialMorphResult>,
    uv: Seq<V2>,
    positions: Seq<V3>,
    links: Seq<BoneLink>,
    idx: int,
    w: u32,
    depth: int,
) -> (Seq<MaterialMorphResult>, Seq<V2>, Seq<V3>, Seq<BoneLink>)
    decreases 17 - depth, 1int, 0int,
{
    if depth < 0 || depth > 16 || !spec_weight_active(w) || idx < 0 || idx >= morphs.len() {
        (results, uv, positions, links)
    } else {
        let m = morphs[idx];
        match m.morph_type {
            MorphType::Vertex => (
                results,
                uv,
                spec_apply_vertex_offsets(m.vertex_offsets@, w, positions, 0),
                links,
            ),
            MorphType::Bone => (
                results,
                uv,
                positions,
                spec_apply_bone_offsets(m.bone_offsets@, w, links, 0),
            ),
            MorphType::Group => spec_apply_children(
                morphs,
                results,
                uv,
                positions,
                links,
                idx,
                m.group_offsets@,
                w,
                depth,
                0,
            ),
            MorphType::Flip => {
                if m.group_offsets@.len() == 0 {
                    (results, uv, positions, links)
                } else {
                    let sel = spec_flip_selection(w, m.group_offsets@.len() as int);
                    let sub = m.group_offsets@[sel];
                    if (sub.morph_index as int) < morphs.len() && sub.morph_index as int != idx {
                        spec_apply_morph(
                            morphs,
                            results,
                            uv,
                            positions,
                            links,
                            sub.morph_index as int,
                            sub.influence,
                            depth + 1,
                        )
                    } else {
                        (results, uv, positions, links)
                    }
                }
            },
            MorphType::Material => (
                spec_apply_material_offsets(m.material_offsets@, w, results, 0),
                uv,
                positions,
                links,
            ),
            MorphType::Uv => (
                results,
                spec_apply_uv_offsets(m.uv_offsets@, w, uv, 0),
                positions,
                links,
            ),
            MorphType::AdditionalUv1 => (
                results,
                spec_apply_uv_offsets(m.uv_offsets@, w, uv, 0),
                positions,
                links,
            ),
            _ => (results, uv, positions, links),
        }
    }
}

/// The morph state after a group's children from index `k` on: each valid
/// child that is not the parent itself is applied at the product of the
/// group's weight and the child's influence, one level deeper.
pub open spec fn spec_apply_children(
    morphs: Seq<Morph>,
    results: Seq<MaterialMorphResult>,
    uv: Seq<V2>,
    positions: Seq<V3>,
    links: Seq<BoneLink>,
    parent: int,
    children: Seq<GroupMorphOffset>,
    w: u32,
    depth: int,
    k: int,
) -> (Seq<MaterialMorphResult>, Seq<V2>, Seq<V3>, Seq<BoneLink>)
    decreases 17 - depth, 0int, children.len() - k,
{
    if depth < 0 || depth > 16 || k < 0 || k >= children.len() {
        (results, uv, positions, links)
    } else {
        let sub = children[k];
        let nxt = if (sub.morph_index as int) < morphs.len() && sub.morph_index as int != parent {
            spec_apply_morph(
                morphs,
                results,
                uv,
                positions,
                links,
                sub.morph_index as int,
                mul_bits(w, sub.influence),
                depth + 1,
            )
        } else {
            (results, uv, positions, links)
        };
        spec_apply_children(morphs, nxt.0, nxt.1, nxt.2, nxt.3, parent, children, w, depth, k + 1)
    }
}

/// The morph state after the whole pass from morph `m` on: every morph
/// whose weight is active is applied at depth zero, in index order.
pub open spec fn spec_apply_all_morphs(
    morphs: Seq<Morph>,
    results: Seq<MaterialMorphResult>,
    uv: Seq<V2>,
    positions: Seq<V3>,
    links: Seq<BoneLink>,
    m: int,
) -> (Seq<MaterialMorphResult>, Seq<V2>, Seq<V3>, Seq<BoneLink>)
    decreases morphs.len() - m,
{
    if m < 0 || m >= morphs.len() {
        (results, uv, positions, links)
    } else {
        let st = if spec_weight_active(morphs[m].weight) {
            spec_apply_morph(morphs, results, uv, positions, links, m, morphs[m].weight, 0)
        } else {
            (results, uv, positions, links)
        };
        spec_apply_all_morphs(morphs, st.0, st.1, st.2, st.3, m + 1)
    }
}

/// Apply one morph with an effective weight, recursing into group and flip
/// children with a depth budget; past the budget or below the weight
/// threshold nothing happens.
pub fn apply_single_morph(
    morphs: &Vec<Morph>,
    material_morph_results: &mut Vec<MaterialMorphResult>,
    uv_morph_deltas: &mut Vec<V2>,
    morph_idx: usize,
    effective_weight: u32,
    bones: &mut BoneSet,
    positions: &mut Vec<V3>,
    depth: u32,
)
    requires
        old(bones).wf(),
    ensures
        final(bones).wf(),
        final(material_morph_results)@.len() == old(material_morph_results)@.len(),
        final(uv_morph_deltas)@.len() == old(uv_morph_deltas)@.len(),
        final(positions)@.len() == old(positions)@.len(),
        final(bones).links@.len() == old(bones).links@.len(),
        *final(bones) == (BoneSet { links: final(bones).links, ..*old(bones) }),
        forall|i: int|
            0 <= i < old(bones).links@.len() ==> spec_same_but_anim(
                old(bones).links@[i],
                #[trigger] final(bones).links@[i],
            ),
        !spec_weight_active(effective_weight) || depth > MAX_GROUP_MORPH_DEPTH ==> {
            &&& final(material_morph_results)@ == old(material_morph_results)@
            &&& final(uv_morph_deltas)@ == old(uv_morph_deltas)@
            &&& final(positions)@ == old(positions)@
            &&& *final(bones) == *old(bones)
        },
        (
            final(material_morph_results)@,
            final(uv_morph_deltas)@,
            final(positions)@,
            final(bones).links@,
        ) == spec_apply_morph(
            morphs@,
            old(material_morph_results)@,
            old(uv_morph_deltas)@,
            old(positions)@,
            old(bones).links@,
            morph_idx as int,
            effective_weight,
            depth as int,
        ),
    decreases MAX_GROUP_MORPH_DEPTH + 1 - depth,
{
    if depth > MAX_GROUP_MORPH_DEPTH || !weight_active(effective_weight) {
        return ;
    }
    if morph_idx >= morphs.len() {
        return ;
    }
    let morph = &morphs[morph_idx];
    match morph.morph_type {
        MorphType::Vertex => {
            apply_vertex_morph(&morph.vertex_offsets, effective_weight, positions);
        },
        MorphType::Bone => {
            apply_bone_morph(&morph.bone_offsets, effective_weight, bones);
        },
        MorphType::Group => {
            let ghost bones1 = *bones;
            let ghost st0 = (material_morph_results@, uv_morph_deltas@, positions@, bones.links@);
            let ghost children = morphs@[morph_idx as int].group_offsets@;
            let subs = morph.group_offsets.len();
            let mut si: usize = 0;
            while si < subs
                invariant
                    depth <= MAX_GROUP_MORPH_DEPTH,
                    subs == morph.group_offsets@.len(),
                    morphs@[morph_idx as int].group_offsets@ == morph.group_offsets@,
                    children == morph.group_offsets@,
                    morph_idx < morphs@.len(),
                    si <= subs,
                    bones.wf(),
                    bones.links@.len() == bones1.links@.len(),
                    *bones == (BoneSet { links: bones.links, ..bones1 }),
                    material_morph_results@.len() == old(material_morph_results)@.len(),
                    uv_morph_deltas@.len() == old(uv_morph_deltas)@.len(),
                    positions@.len() == old(positions)@.len(),
                    spec_apply_children(
                        morphs@,
                        st0.0,
                        st0.1,
                        st0.2,
                        st0.3,
                        morph_idx as int,
                        children,
                        effective_weight,
                        depth as int,
                        0,
                    ) == spec_apply_children(
                        morphs@,
                        material_morph_results@,
                        uv_morph_deltas@,
                        positions@,
                        bones.links@,
                        morph_idx as int,
                        children,
                        effective_weight,
                        depth as int,
                        si as int,
                    ),
                    forall|i: int|
                        0 <= i < bones1.links@.len() ==> spec_same_but_anim(
                            bones1.links@[i],
                            #[trigger] bones.links@[i],
                        ),
                decreases subs - si,
            {
                let ghost mid = (
                    material_morph_results@,
                    uv_morph_deltas@,
                    positions@,
                    bones.links@,
                );
                let sub = morphs[morph_idx].group_offsets[si];
                let sub_idx = sub.morph_index as usize;
                if sub_idx < morphs.len() && sub_idx != morph_idx {
                    let ghost pre = *bones;
                    apply_single_morph(
                        morphs,
                        material_morph_results,
                        uv_morph_deltas,
                        sub_idx,
                        fmul(effective_weight, sub.influence),
                        bones,
                        positions,
                        depth + 1,
                    );
                    proof {
                        assert forall|i: int|
                            0 <= i < bones1.links@.len() implies spec_same_but_anim(
                            bones1.links@[i],
                            #[trigger] bones.links@[i],
                        ) by {
                            lemma_same_but_anim_trans(
                                bones1.links@[i],
                                pre.links@[i],
                                bones.links@[i],
                            );
                        }
                    }
                }
                proof {
                    assert(spec_apply_children(
                        morphs@,
                        mid.0,
                        mid.1,
                        mid.2,
                        mid.3,
                        morph_idx as int,
                        children,
                        effective_weight,
                        depth as int,
                        si as int,
                    ) == spec_apply_children(
                        morphs@,
                        material_morph_results@,
                        uv_morph_deltas@,
                        positions@,
                        bones.links@,
                        morph_idx as int,
                        children,
                        effective_weight,
                        depth as int,
                        si as int + 1,
                    ));
                }
                si = si + 1;
            }
            proof {
                assert(spec_apply_children(
                    morphs@,
                    material_morph_results@,
                    uv_morph_deltas@,
                    positions@,
                    bones.links@,
                    morph_idx as int,
                    children,
                    effective_weight,
                    depth as int,
                    subs as int,
                ) == (material_morph_results@, uv_morph_deltas@, positions@, bones.links@));
            }
        },
        MorphType::Flip => {
            let count = morph.group_offsets.len();
            if count > 0 {
                let w = fclamp(effective_weight, 0, MO_ONE);
                let raw = float_to_usize(ffloor(fmul(w, usize_to_float(count))));
                let index = if raw > count - 1 {
                    count - 1
                } else {
                    raw
                };
                proof {
                    assert(index as int == spec_flip_selection(effective_weight, count as int));
                }
                let sub = morph.group_offsets[index];
                let sub_idx = sub.morph_index as usize;
                let sub_influence = sub.influence;
                if sub_idx < morphs.len() && sub_idx != morph_idx {
                    apply_single_morph(
                        morphs,
                        material_morph_results,
                        uv_morph_deltas,
                        sub_idx,
                        sub_influence,
                        bones,
                        positions,
                        depth + 1,
                    );
                }
            }
        },
        MorphType::Material => {
            apply_material_morph(
                &morph.material_offsets,
                effective_weight,
                material_morph_results,
            );
        },
        MorphType::Uv => {
            apply_uv_morph(&morph.uv_offsets, effective_weight, uv_morph_deltas);
        },
        MorphType::AdditionalUv1 => {
            apply_uv_morph(&morph.uv_offsets, effective_weight, uv_morph_deltas);
        },
        _ => {},
    }
}

/// Move each offset vertex by its delta scaled by the weight.
fn apply_vertex_morph(offsets: &Vec<VertexMorphOffset>, weight: u32, positions: &mut Vec<V3>)
    ensures
        final(positions)@.len() == old(positions)@.len(),
        final(positions)@ == spec_apply_vertex_offsets(offsets@, weight, old(positions)@, 0),
{
    let ghost p0 = positions@;
    let mut i: usize = 0;
    while i < offsets.len()
        invariant
            positions@.len() == p0.len(),
            i <= offsets@.len(),
            spec_apply_vertex_offsets(offsets@, weight, p0, 0) == spec_apply_vertex_offsets(
                offsets@,
                weight,
                positions@,
                i as int,
            ),
        decreases offsets@.len() - i,
    {
        let ghost pre = positions@;
        let off = offsets[i];
        let idx = off.vertex_index as usize;
        if idx < positions.len() {
            let updated = v3_add(positions[idx], v3_scale(off.offset, weight));
            positions.set(idx, updated);
        }
        proof {
            assert(spec_apply_vertex_offsets(offsets@, weight, pre, i as int)
                == spec_apply_vertex_offsets(offsets@, weight, positions@, i as int + 1));
        }
        i = i + 1;
    }
    proof {
        assert(spec_apply_vertex_offsets(offsets@, weight, positions@, offsets@.len() as int)
            == positions@);
    }
}

/// Add each offset's scaled translation to its bone's animation
/// translation, and compose its short-arc weighted rotation onto the
/// bone's animation rotation.
fn apply_bone_morph(offsets: &Vec<BoneMorphOffset>, weight: u32, bones: &mut BoneSet)
    requires
        old(bones).wf(),
    ensures
        final(bones).wf(),
        final(bones).links@.len() == old(bones).links@.len(),
        *final(bones) == (BoneSet { links: final(bones).links, ..*old(bones) }),
        final(bones).links@ == spec_apply_bone_offsets(offsets@, weight, old(bones).links@, 0),
        forall|i: int|
            0 <= i < old(bones).links@.len() ==> spec_same_but_anim(
                old(bones).links@[i],
                #[trigger] final(bones).links@[i],
            ),
{
    let ghost bones0 = *bones;
    let mut i: usize = 0;
    while i < offsets.len()
        invariant
            bones.wf(),
            bones.links@.len() == bones0.links@.len(),
            *bones == (BoneSet { links: bones.links, ..bones0 }),
            i <= offsets@.len(),
            spec_apply_bone_offsets(offsets@, weight, bones0.links@, 0) == spec_apply_bone_offsets(
                offsets@,
                weight,
                bones.links@,
                i as int,
            ),
            forall|j: int|
                0 <= j < bones0.links@.len() ==> spec_same_but_anim(
                    bones0.links@[j],
                    #[trigger] bones.links@[j],
                ),
        decreases offsets@.len() - i,
    {
        let ghost pre = bones.links@;
        let off = offsets[i];
        let idx = off.bone_index as usize;
        let translation = v3_scale(off.translation, weight);
        // Flip the offset rotation when its scalar part is negative, so the
        // weighted composition takes the short arc.
        let flipped: Q4 = if flt(off.rotation.w, 0) {
            Q4 {
                x: crate::scalar::fneg(off.rotation.x),
                y: crate::scalar::fneg(off.rotation.y),
                z: crate::scalar::fneg(off.rotation.z),
                w: crate::scalar::fneg(off.rotation.w),
            }
        } else {
            off.rotation
        };
        let rotation = q_normalize(
            Q4 {
                x: fmul(flipped.x, weight),
                y: fmul(flipped.y, weight),
                z: fmul(flipped.z, weight),
                w: fsub(MO_ONE, fmul(fsub(MO_ONE, flipped.w), weight)),
            },
        );
        proof {
            assert(rotation == spec_weighted_morph_rotation(off.rotation, weight));
        }
        match bones.get_bone(idx) {
            Some(b) => {
                bones.set_bone_translation(idx, v3_add(b.animation_translate, translation));
                bones.set_bone_rotation(idx, q_mul_current(bones, idx, rotation));
                proof {
                    assert(bones.links@ =~= pre.update(
                        idx as int,
                        BoneLink {
                            animation_translate: spec_v3_add(
                                pre[idx as int].animation_translate,
                                spec_v3_scale(off.translation, weight),
                            ),
                            animation_rotate: quat_mul_of(
                                pre[idx as int].animation_rotate,
                                spec_weighted_morph_rotation(off.rotation, weight),
                            ),
                            ..pre[idx as int]
                        },
                    ));
                }
            },
            None => {},
        }
        proof {
            assert(spec_apply_bone_offsets(offsets@, weight, pre, i as int)
                == spec_apply_bone_offsets(offsets@, weight, bones.links@, i as int + 1));
        }
        i = i + 1;
    }
    proof {
        assert(spec_apply_bone_offsets(offsets@, weight, bones.links@, offsets@.len() as int)
            == bones.links@);
    }
}

/// The bone's current animation rotation composed with `rotation`.
fn q_mul_current(bones: &BoneSet, idx: usize, rotation: Q4) -> (r: Q4)
    requires
        idx < bones.links@.len(),
    ensures
        r == crate::algebra::quat_mul_of(bones.links@[idx as int].animation_rotate, rotation),
{
    q_mul(bones.links[idx].animation_rotate, rotation)
}

/// Fold each material offset into the targeted accumulator (or all of them
/// for a negative target): multiplying offsets scale `mul`, adding offsets
/// grow `add`; out-of-range targets change nothing.
fn apply_material_morph(
    offsets: &Vec<MaterialMorphOffset>,
    weight: u32,
    material_morph_results: &mut Vec<MaterialMorphResult>,
)
    ensures
        final(material_morph_results)@.len() == old(material_morph_results)@.len(),
        final(material_morph_results)@ == spec_apply_material_offsets(
            offsets@,
            weight,
            old(material_morph_results)@,
            0,
        ),
{
    let ghost r0 = material_morph_results@;
    let mut i: usize = 0;
    while i < offsets.len()
        invariant
            material_morph_results@.len() == r0.len(),
            i <= offsets@.len(),
            spec_apply_material_offsets(offsets@, weight, r0, 0) == spec_apply_material_offsets(
                offsets@,
                weight,
                material_morph_results@,
                i as int,
            ),
        decreases offsets@.len() - i,
    {
        let ghost pre = material_morph_results@;
        let off = offsets[i];
        if off.material_index < 0 {
            let nm = material_morph_results.len();
            let mut j: usize = 0;
            while j < nm
                invariant
                    material_morph_results@.len() == nm,
                    nm == pre.len(),
                    j <= nm,
                    forall|k: int|
                        0 <= k < j ==> #[trigger] material_morph_results@[k]
                            == spec_apply_material_offset(pre[k], off, weight),
                    forall|k: int|
                        j <= k < nm ==> #[trigger] material_morph_results@[k] == pre[k],
                decreases nm - j,
            {
                let mut r = material_morph_results[j];
                if off.operation == 0 {
                    r.mul.apply_multiply(&off, weight);
                } else {
                    r.add.apply_additive(&off, weight);
                }
                material_morph_results.set(j, r);
                j = j + 1;
            }
            proof {
                assert(material_morph_results@ =~= pre.map_values(
                    |r: MaterialMorphResult| spec_apply_material_offset(r, off, weight),
                ));
            }
        } else {
            let mat_idx = off.material_index as usize;
            if mat_idx < material_morph_results.len() {
                let mut r = material_morph_results[mat_idx];
                if off.operation == 0 {
                    r.mul.apply_multiply(&off, weight);
                } else {
                    r.add.apply_additive(&off, weight);
                }
                material_morph_results.set(mat_idx, r);
            }
        }
        proof {
            assert(spec_apply_material_offsets(offsets@, weight, pre, i as int)
                == spec_apply_material_offsets(
                offsets@,
                weight,
                material_morph_results@,
                i as int + 1,
            ));
        }
        i = i + 1;
    }
    proof {
        assert(spec_apply_material_offsets(
            offsets@,
            weight,
            material_morph_results@,
            offsets@.len() as int,
        ) == material_morph_results@);
    }
}

/// Add each offset's scaled first two lanes to its vertex's UV delta.
fn apply_uv_morph(offsets: &Vec<UvMorphOffset>, weight: u32, uv_morph_deltas: &mut Vec<V2>)
    ensures
        final(uv_morph_deltas)@.len() == old(uv_morph_deltas)@.len(),
        final(uv_morph_deltas)@ == spec_apply_uv_offsets(offsets@, weight, old(uv_morph_deltas)@, 0),
{
    let ghost d0 = uv_morph_deltas@;
    let mut i: usize = 0;
    while i < offsets.len()
        invariant
            uv_morph_deltas@.len() == d0.len(),
            i <= offsets@.len(),
            spec_apply_uv_offsets(offsets@, weight, d0, 0) == spec_apply_uv_offsets(
                offsets@,
                weight,
                uv_morph_deltas@,
                i as int,
            ),
        decreases offsets@.len() - i,
    {
        let ghost pre = uv_morph_deltas@;
        let off = offsets[i];
        let idx = off.vertex_index as usize;
        if idx < uv_morph_deltas.len() {
            let updated = v2_add(
                uv_morph_deltas[idx],
                v2_scale(V2 { x: off.offset.x, y: off.offset.y }, weight),
            );
            uv_morph_deltas.set(idx, updated);
        }
        proof {
            assert(spec_apply_uv_offsets(offsets@, weight, pre, i as int)
                == spec_apply_uv_offsets(offsets@, weight, uv_morph_deltas@, i as int + 1));
        }
        i = i + 1;
    }
    proof {
        assert(spec_apply_uv_offsets(offsets@, weight, uv_morph_deltas@, offsets@.len() as int)
            == uv_morph_deltas@);
    }
}

} // verus!
