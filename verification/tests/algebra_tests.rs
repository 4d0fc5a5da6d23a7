//! The vector, quaternion and matrix layer against glam itself, and the
//! frame conversion's exactness.

use glam::{Mat4, Quat, Vec3};
use mmd_engine::algebra::{
    inv_z, m4_from_rotation_translation, m4_from_translation, m4_identity, m4_inverse, m4_mul,
    m4_to_scale_rotation_translation, q_from_axis_angle, q_from_euler_xyz, q_from_euler_yxz,
    q_from_rotation_x, q_from_rotation_y, q_from_rotation_z, q_inverse, q_mul, q_mul_vec3,
    q_normalize, q_slerp, q_to_euler_xyz, v3_add, v3_cross, v3_dot, v3_length, v3_lerp, v3_neg,
    v3_normalize_or_zero, v3_scale, v3_sub, M4, Q4, V3,
};

fn v(x: f32, y: f32, z: f32) -> V3 {
    V3 { x: x.to_bits(), y: y.to_bits(), z: z.to_bits() }
}

fn to_glam(a: V3) -> Vec3 {
    Vec3::new(f32::from_bits(a.x), f32::from_bits(a.y), f32::from_bits(a.z))
}

fn from_glam(a: Vec3) -> V3 {
    V3 { x: a.x.to_bits(), y: a.y.to_bits(), z: a.z.to_bits() }
}

fn q(x: f32, y: f32, z: f32, w: f32) -> Q4 {
    Q4 { x: x.to_bits(), y: y.to_bits(), z: z.to_bits(), w: w.to_bits() }
}

fn q_to_glam(a: Q4) -> Quat {
    Quat::from_xyzw(
        f32::from_bits(a.x),
        f32::from_bits(a.y),
        f32::from_bits(a.z),
        f32::from_bits(a.w),
    )
}

fn q_from_glam(a: Quat) -> Q4 {
    let ar = a.to_array();
    Q4 { x: ar[0].to_bits(), y: ar[1].to_bits(), z: ar[2].to_bits(), w: ar[3].to_bits() }
}

fn m_from_glam(a: Mat4) -> M4 {
    let c = a.to_cols_array();
    let mut m = [0u32; 16];
    for i in 0..16 {
        m[i] = c[i].to_bits();
    }
    M4 { m }
}

fn m_to_glam(a: &M4) -> Mat4 {
    let mut c = [0f32; 16];
    for i in 0..16 {
        c[i] = f32::from_bits(a.m[i]);
    }
    Mat4::from_cols_array(&c)
}

#[test]
fn vector_ops_match_glam() {
    let a = v(1.5, -2.25, 3.0);
    let b = v(0.5, 4.0, -1.0);
    assert_eq!(v3_add(a, b), from_glam(to_glam(a) + to_glam(b)));
    assert_eq!(v3_sub(a, b), from_glam(to_glam(a) - to_glam(b)));
    assert_eq!(v3_scale(a, 2.5f32.to_bits()), from_glam(to_glam(a) * 2.5));
    assert_eq!(v3_neg(a), from_glam(-to_glam(a)));
    assert_eq!(v3_lerp(a, b, 0.25f32.to_bits()), from_glam(to_glam(a).lerp(to_glam(b), 0.25)));
    assert_eq!(v3_dot(a, b), to_glam(a).dot(to_glam(b)).to_bits());
    assert_eq!(v3_cross(a, b), from_glam(to_glam(a).cross(to_glam(b))));
    assert_eq!(v3_length(a), to_glam(a).length().to_bits());
    assert_eq!(v3_normalize_or_zero(a), from_glam(to_glam(a).normalize_or_zero()));
    assert_eq!(v3_normalize_or_zero(v(0.0, 0.0, 0.0)), v(0.0, 0.0, 0.0));
}

#[test]
fn quaternion_ops_match_glam() {
    let a = q_from_glam(Quat::from_rotation_y(0.7));
    let b = q_from_glam(Quat::from_rotation_x(-0.3));
    assert_eq!(q_mul(a, b), q_from_glam(q_to_glam(a) * q_to_glam(b)));
    assert_eq!(
        q_slerp(a, b, 0.5f32.to_bits()),
        q_from_glam(q_to_glam(a).slerp(q_to_glam(b), 0.5))
    );
    assert_eq!(q_normalize(q(1.0, 2.0, 3.0, 4.0)), q_from_glam(q_to_glam(q(1.0, 2.0, 3.0, 4.0)).normalize()));
    assert_eq!(q_inverse(a), q_from_glam(q_to_glam(a).inverse()));
    let axis = v(0.0, 0.0, 1.0);
    assert_eq!(
        q_from_axis_angle(axis, 0.9f32.to_bits()),
        q_from_glam(Quat::from_axis_angle(Vec3::Z, 0.9))
    );
    assert_eq!(q_from_rotation_x(0.4f32.to_bits()), q_from_glam(Quat::from_rotation_x(0.4)));
    assert_eq!(q_from_rotation_y(0.4f32.to_bits()), q_from_glam(Quat::from_rotation_y(0.4)));
    assert_eq!(q_from_rotation_z(0.4f32.to_bits()), q_from_glam(Quat::from_rotation_z(0.4)));
    assert_eq!(
        q_from_euler_yxz(0.1f32.to_bits(), 0.2f32.to_bits(), 0.3f32.to_bits()),
        q_from_glam(Quat::from_euler(glam::EulerRot::YXZ, 0.1, 0.2, 0.3))
    );
    assert_eq!(
        q_from_euler_xyz(0.1f32.to_bits(), 0.2f32.to_bits(), 0.3f32.to_bits()),
        q_from_glam(Quat::from_euler(glam::EulerRot::XYZ, 0.1, 0.2, 0.3))
    );
    let rotated = q_mul_vec3(a, v(1.0, 2.0, 3.0));
    assert_eq!(rotated, from_glam(q_to_glam(a) * Vec3::new(1.0, 2.0, 3.0)));
    let euler = q_to_euler_xyz(a);
    let (ex, ey, ez) = q_to_glam(a).to_euler(glam::EulerRot::XYZ);
    assert_eq!((f32::from_bits(euler.x), f32::from_bits(euler.y), f32::from_bits(euler.z)), (ex, ey, ez));
}

#[test]
fn matrix_ops_match_glam() {
    let ga = Mat4::from_rotation_translation(Quat::from_rotation_z(0.6), Vec3::new(1.0, 2.0, 3.0));
    let gb = Mat4::from_rotation_translation(Quat::from_rotation_x(-0.2), Vec3::new(-4.0, 0.5, 2.0));
    let a = m_from_glam(ga);
    let b = m_from_glam(gb);
    assert_eq!(m4_mul(&a, &b).m, m_from_glam(ga * gb).m);
    assert_eq!(m4_inverse(&a).m, m_from_glam(ga.inverse()).m);
    assert_eq!(m4_identity().m, m_from_glam(Mat4::IDENTITY).m);
    assert_eq!(
        m4_from_translation(v(1.0, 2.0, 3.0)).m,
        m_from_glam(Mat4::from_translation(Vec3::new(1.0, 2.0, 3.0))).m
    );
    let qq = q_from_glam(Quat::from_rotation_y(0.3));
    assert_eq!(
        m4_from_rotation_translation(qq, v(5.0, 6.0, 7.0)).m,
        m_from_glam(Mat4::from_rotation_translation(Quat::from_rotation_y(0.3), Vec3::new(5.0, 6.0, 7.0))).m
    );
    let (s, r, t) = m4_to_scale_rotation_translation(&a);
    let (gs, gr, gt) = ga.to_scale_rotation_translation();
    assert_eq!(s, from_glam(gs));
    assert_eq!(r, q_from_glam(gr));
    assert_eq!(t, from_glam(gt));
}

#[test]
fn inv_z_matches_conjugation_and_undoes_itself() {
    let ga = Mat4::from_rotation_translation(
        Quat::from_euler(glam::EulerRot::YXZ, 0.4, -0.8, 0.1),
        Vec3::new(2.0, -3.0, 4.5),
    );
    let a = m_from_glam(ga);
    // Mathematically the conjugation Z * M * Z.
    let z = Mat4::from_scale(Vec3::new(1.0, 1.0, -1.0));
    let expected = z * ga * z;
    let got = m_to_glam(&inv_z(&a));
    assert!(got.abs_diff_eq(expected, 1e-6));
    // And bit-exact involution, NaN payloads and signed zeroes included.
    let weird = M4 {
        m: [
            0x7FC0_1234, 0x8000_0000, 0xFF80_0000, 1, 0x0000_0001, 0x7F80_0000, 42, 0xDEAD_BEEF,
            7, 0x8000_0001, 0xFFC0_0000, 0x3F80_0000, 99, 0x4049_0FDB, 0xC000_0000, 0,
        ],
    };
    let back = inv_z(&inv_z(&weird));
    assert_eq!(back.m, weird.m);
}
