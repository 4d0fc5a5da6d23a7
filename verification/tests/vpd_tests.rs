//! The pose-file reader.

use mmd_engine::vpd::VpdFile;

const SAMPLE: &str = "Vocaloid Pose Data file\n\
miku.osm;\n\
2;\n\
\n\
Bone0{right_arm\n\
  1.0,2.0,3.0;\n\
  0.0,0.0,0.70710678,0.70710678;\n\
}\n\
\n\
Morph0{smile\n\
  0.75;\n\
}\n";

#[test]
fn sample_pose_parses() {
    let file = VpdFile::load_from_bytes(SAMPLE.as_bytes()).unwrap();
    assert_eq!(file.model_name, "miku.osm");
    assert_eq!(file.bones.len(), 1);
    assert_eq!(file.morphs.len(), 1);
    let bone = &file.bones[0];
    assert_eq!(bone.name, "right_arm");
    // The translation's z lane flips into the engine's frame.
    assert_eq!(f32::from_bits(bone.translation.x), 1.0);
    assert_eq!(f32::from_bits(bone.translation.y), 2.0);
    assert_eq!(f32::from_bits(bone.translation.z), -3.0);
    // The quaternion's z and w lanes flip, then the value renormalises.
    let q = glam::Quat::from_xyzw(
        f32::from_bits(bone.rotation.x),
        f32::from_bits(bone.rotation.y),
        f32::from_bits(bone.rotation.z),
        f32::from_bits(bone.rotation.w),
    );
    let expected = glam::Quat::from_xyzw(0.0, 0.0, -0.70710678, -0.70710678).normalize();
    assert!(q.abs_diff_eq(expected, 1e-6));
    let morph = &file.morphs[0];
    assert_eq!(morph.name, "smile");
    assert_eq!(f32::from_bits(morph.weight), 0.75);
}

#[test]
fn missing_header_is_rejected() {
    let err = VpdFile::load_from_bytes(b"not a pose file\n1.0;\n").unwrap_err();
    assert_eq!(err.message(), "Invalid VPD header");
    let err2 = VpdFile::load_from_bytes(b"").unwrap_err();
    assert_eq!(err2.message(), "Empty file");
}

#[test]
fn header_alone_yields_an_empty_pose() {
    let file = VpdFile::load_from_bytes(b"Vocaloid Pose Data file\n").unwrap();
    assert_eq!(file.bones.len(), 0);
    assert_eq!(file.morphs.len(), 0);
    assert_eq!(file.model_name, "");
}

#[test]
fn malformed_lines_are_skipped() {
    let text = "Vocaloid Pose Data file\n\
model;\n\
1;\n\
// a comment line\n\
Bone0{stub\n\
  not numbers;\n\
  1.0,1.0,1.0;\n\
  0.0,0.0,0.0,1.0;\n\
}\n";
    let file = VpdFile::load_from_bytes(text.as_bytes()).unwrap();
    // The seven scalars eventually arrive, the junk line contributes none.
    assert_eq!(file.bones.len(), 1);
    assert_eq!(f32::from_bits(file.bones[0].rotation.w), -1.0);
}
