//! The morph pass: idempotence at zero weight, bounded group recursion,
//! flip selection and the material accumulators.

use mmd_engine::algebra::{V3, V4};
use mmd_engine::bone::BoneLink;
use mmd_engine::bone_set::BoneSet;
use mmd_engine::morph::{
    GroupMorphOffset, MaterialMorphOffset, Morph, MorphManager, MorphType, UvMorphOffset,
    VertexMorphOffset,
};

fn v(x: f32, y: f32, z: f32) -> V3 {
    V3 { x: x.to_bits(), y: y.to_bits(), z: z.to_bits() }
}

fn v4(x: f32, y: f32, z: f32, w: f32) -> V4 {
    V4 { x: x.to_bits(), y: y.to_bits(), z: z.to_bits(), w: w.to_bits() }
}

fn empty_bones() -> BoneSet {
    let mut set = BoneSet::new();
    set.add_bone("root".to_string(), BoneLink::new(-1, 0, v(0.0, 0.0, 0.0)));
    set.build_hierarchy();
    set
}

fn vertex_morph(name: &str, vertex: u32, offset: V3) -> Morph {
    let mut m = Morph::new(name.to_string(), MorphType::Vertex);
    m.vertex_offsets.push(VertexMorphOffset { vertex_index: vertex, offset });
    m
}

#[test]
fn zero_weights_leave_everything_untouched() {
    // With every weight at zero the pass leaves positions alone, UV deltas
    // zero and the material accumulators at the identity.
    let mut manager = MorphManager::new();
    manager.set_material_count(2);
    manager.set_vertex_count(3);
    manager.add_morph(vertex_morph("a", 0, v(1.0, 0.0, 0.0)));
    let mut uv = Morph::new("b".to_string(), MorphType::Uv);
    uv.uv_offsets.push(UvMorphOffset { vertex_index: 1, offset: v4(0.5, 0.5, 0.0, 0.0) });
    manager.add_morph(uv);
    let mut bones = empty_bones();
    let mut positions = vec![v(1.0, 2.0, 3.0), v(4.0, 5.0, 6.0), v(7.0, 8.0, 9.0)];
    let before = positions.clone();
    manager.apply_morphs(&mut bones, &mut positions);
    for (a, b) in positions.iter().zip(before.iter()) {
        assert_eq!(a, b);
    }
    for delta in manager.get_uv_morph_deltas() {
        assert_eq!(delta.x, 0);
        assert_eq!(delta.y, 0);
    }
    for result in manager.get_material_morph_results() {
        assert_eq!(f32::from_bits(result.mul.diffuse.x), 1.0);
        assert_eq!(f32::from_bits(result.mul.edge_size), 1.0);
        assert_eq!(f32::from_bits(result.add.diffuse.x), 0.0);
        assert_eq!(f32::from_bits(result.add.edge_size), 0.0);
    }
}

#[test]
fn vertex_morph_scales_by_weight() {
    let mut manager = MorphManager::new();
    manager.set_vertex_count(1);
    manager.add_morph(vertex_morph("a", 0, v(2.0, 0.0, 0.0)));
    manager.set_morph_weight(0, 0.5f32.to_bits());
    let mut bones = empty_bones();
    let mut positions = vec![v(0.0, 0.0, 0.0)];
    manager.apply_morphs(&mut bones, &mut positions);
    assert_eq!(f32::from_bits(positions[0].x), 1.0);
}

#[test]
fn group_ring_terminates_within_the_depth_budget() {
    // Morph 0 is a group holding the counter (morph 2) and the ring mate
    // (morph 1); morph 1 is a group holding morph 0 again. The ring stops
    // at the depth budget: morph 0 runs at depths 0, 2, ..., 16, and the
    // counter lands once per run except past the cut-off, eight times.
    let mut manager = MorphManager::new();
    manager.set_vertex_count(1);
    let mut a = Morph::new("ring_a".to_string(), MorphType::Group);
    a.group_offsets.push(GroupMorphOffset { morph_index: 2, influence: 1.0f32.to_bits() });
    a.group_offsets.push(GroupMorphOffset { morph_index: 1, influence: 1.0f32.to_bits() });
    let mut b = Morph::new("ring_b".to_string(), MorphType::Group);
    b.group_offsets.push(GroupMorphOffset { morph_index: 0, influence: 1.0f32.to_bits() });
    manager.add_morph(a);
    manager.add_morph(b);
    manager.add_morph(vertex_morph("counter", 0, v(1.0, 0.0, 0.0)));
    manager.set_morph_weight(0, 1.0f32.to_bits());
    let mut bones = empty_bones();
    let mut positions = vec![v(0.0, 0.0, 0.0)];
    manager.apply_morphs(&mut bones, &mut positions);
    let count = f32::from_bits(positions[0].x);
    assert_eq!(count, 8.0);
    // Either way, no morph ran more often than the depth budget plus one.
    assert!(count <= 17.0);
}

#[test]
fn direct_self_reference_is_skipped() {
    let mut manager = MorphManager::new();
    manager.set_vertex_count(1);
    let mut a = Morph::new("selfish".to_string(), MorphType::Group);
    a.group_offsets.push(GroupMorphOffset { morph_index: 0, influence: 1.0f32.to_bits() });
    manager.add_morph(a);
    manager.set_morph_weight(0, 1.0f32.to_bits());
    let mut bones = empty_bones();
    let mut positions = vec![v(0.0, 0.0, 0.0)];
    manager.apply_morphs(&mut bones, &mut positions);
    assert_eq!(f32::from_bits(positions[0].x), 0.0);
}

#[test]
fn flip_selects_by_floor_of_weight_times_count() {
    // Three children and weight one half: child floor(0.5 * 3) = 1 runs,
    // with its own influence as the weight, independent of the outer half.
    let mut manager = MorphManager::new();
    manager.set_vertex_count(1);
    let mut flip = Morph::new("flip".to_string(), MorphType::Flip);
    flip.group_offsets.push(GroupMorphOffset { morph_index: 1, influence: 0.25f32.to_bits() });
    flip.group_offsets.push(GroupMorphOffset { morph_index: 2, influence: 0.75f32.to_bits() });
    flip.group_offsets.push(GroupMorphOffset { morph_index: 3, influence: 0.5f32.to_bits() });
    manager.add_morph(flip);
    manager.add_morph(vertex_morph("x", 0, v(1.0, 0.0, 0.0)));
    manager.add_morph(vertex_morph("y", 0, v(0.0, 1.0, 0.0)));
    manager.add_morph(vertex_morph("z", 0, v(0.0, 0.0, 1.0)));
    manager.set_morph_weight(0, 0.5f32.to_bits());
    let mut bones = empty_bones();
    let mut positions = vec![v(0.0, 0.0, 0.0)];
    manager.apply_morphs(&mut bones, &mut positions);
    assert_eq!(f32::from_bits(positions[0].x), 0.0);
    assert_eq!(f32::from_bits(positions[0].y), 0.75);
    assert_eq!(f32::from_bits(positions[0].z), 0.0);
}

#[test]
fn material_morph_composes_multiply_and_add() {
    let mut manager = MorphManager::new();
    manager.set_material_count(2);
    let mut mat = Morph::new("tint".to_string(), MorphType::Material);
    mat.material_offsets.push(MaterialMorphOffset {
        material_index: 1,
        operation: 0,
        diffuse: v4(0.5, 0.5, 0.5, 1.0),
        specular: v(1.0, 1.0, 1.0),
        specular_strength: 1.0f32.to_bits(),
        ambient: v(1.0, 1.0, 1.0),
        edge_color: v4(1.0, 1.0, 1.0, 1.0),
        edge_size: 1.0f32.to_bits(),
        texture_tint: v4(1.0, 1.0, 1.0, 1.0),
        environment_tint: v4(1.0, 1.0, 1.0, 1.0),
        toon_tint: v4(1.0, 1.0, 1.0, 1.0),
    });
    mat.material_offsets.push(MaterialMorphOffset {
        material_index: -1,
        operation: 1,
        diffuse: v4(0.25, 0.0, 0.0, 0.0),
        specular: v(0.0, 0.0, 0.0),
        specular_strength: 0u32,
        ambient: v(0.0, 0.0, 0.0),
        edge_color: v4(0.0, 0.0, 0.0, 0.0),
        edge_size: 0u32,
        texture_tint: v4(0.0, 0.0, 0.0, 0.0),
        environment_tint: v4(0.0, 0.0, 0.0, 0.0),
        toon_tint: v4(0.0, 0.0, 0.0, 0.0),
    });
    manager.add_morph(mat);
    manager.set_morph_weight(0, 1.0f32.to_bits());
    let mut bones = empty_bones();
    let mut positions: Vec<V3> = Vec::new();
    manager.apply_morphs(&mut bones, &mut positions);
    let results = manager.get_material_morph_results();
    // Material 0 keeps its multiplier; the broadcast add reaches it.
    assert_eq!(f32::from_bits(results[0].mul.diffuse.x), 1.0);
    assert_eq!(f32::from_bits(results[0].add.diffuse.x), 0.25);
    // Material 1 was multiplied: 1 * (1 * 0 + 0.5 * 1) = 0.5.
    assert_eq!(f32::from_bits(results[1].mul.diffuse.x), 0.5);
    assert_eq!(f32::from_bits(results[1].add.diffuse.x), 0.25);
}

#[test]
fn bone_morph_writes_weighted_inputs() {
    let mut manager = MorphManager::new();
    let mut bm = Morph::new("arm_twist".to_string(), MorphType::Bone);
    bm.bone_offsets.push(mmd_engine::morph::BoneMorphOffset {
        bone_index: 0,
        translation: v(2.0, 0.0, 0.0),
        rotation: mmd_engine::algebra::Q4 { x: 0, y: 0, z: 0, w: 1.0f32.to_bits() },
    });
    manager.add_morph(bm);
    manager.set_morph_weight(0, 0.5f32.to_bits());
    let mut bones = empty_bones();
    let mut positions: Vec<V3> = Vec::new();
    manager.apply_morphs(&mut bones, &mut positions);
    let b = bones.get_bone(0).unwrap();
    assert_eq!(f32::from_bits(b.animation_translate.x), 1.0);
    // An identity offset rotation stays the identity at any weight.
    assert_eq!(f32::from_bits(b.animation_rotate.w), 1.0);
    assert_eq!(f32::from_bits(b.animation_rotate.x), 0.0);
}
