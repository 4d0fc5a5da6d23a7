//! Keyframe records for bone, morph, camera and IK tracks.

use vstd::prelude::*;

use crate::algebra::{spec_q4_identity, spec_v3_zero, Q4, V3};

verus! {

/// IEEE 754 bit pattern of `0.0_f32`.
pub const K_ZERO: u32 = 0x0000_0000;

/// IEEE 754 bit pattern of `30.0_f32`.
pub const K_30: u32 = 0x41F0_0000;

/// IEEE 754 bit pattern of `-45.0_f32`.
pub const K_NEG_45: u32 = 0xC234_0000;

/// The default Bézier descriptor bytes (a linear descriptor).
pub fn default_bezier_control_point() -> (r: [u8; 4])
    ensures
        r == spec_default_bezier_control_point(),
{
    [20, 20, 107, 107]
}

/// The default Bézier descriptor bytes (a linear descriptor).
pub open spec fn spec_default_bezier_control_point() -> [u8; 4] {
    [20u8, 20u8, 107u8, 107u8]
}

/// One bone keyframe: pose value plus the four interpolation descriptors
/// and the physics flag.
#[derive(Clone, Copy, Debug)]
pub struct BoneKeyframe {
    /// Frame index on the 30 FPS grid.
    pub frame_index: u32,
    /// Translation.
    pub translation: V3,
    /// Orientation quaternion.
    pub orientation: Q4,
    /// Interpolation descriptor bytes of the X translation.
    pub interpolation_x: [u8; 4],
    /// Interpolation descriptor bytes of the Y translation.
    pub interpolation_y: [u8; 4],
    /// Interpolation descriptor bytes of the Z translation.
    pub interpolation_z: [u8; 4],
    /// Interpolation descriptor bytes of the rotation.
    pub interpolation_r: [u8; 4],
    /// Whether physics simulation is enabled across this keyframe.
    pub is_physics_simulation_enabled: bool,
}

/// The default bone keyframe at a given frame: identity pose, linear
/// descriptors, physics enabled.
pub open spec fn spec_bone_keyframe_at(frame_index: u32) -> BoneKeyframe {
    BoneKeyframe {
        frame_index,
        translation: spec_v3_zero(),
        orientation: spec_q4_identity(),
        interpolation_x: spec_default_bezier_control_point(),
        interpolation_y: spec_default_bezier_control_point(),
        interpolation_z: spec_default_bezier_control_point(),
        interpolation_r: spec_default_bezier_control_point(),
        is_physics_simulation_enabled: true,
    }
}

impl BoneKeyframe {
    /// A default keyframe at `frame_index`.
    pub fn new(frame_index: u32) -> (r: BoneKeyframe)
        ensures
            r == spec_bone_keyframe_at(frame_index),
    {
        BoneKeyframe {
            frame_index,
            translation: crate::algebra::v3_zero(),
            orientation: crate::algebra::q4_identity(),
            interpolation_x: default_bezier_control_point(),
            interpolation_y: default_bezier_control_point(),
            interpolation_z: default_bezier_control_point(),
            interpolation_r: default_bezier_control_point(),
            is_physics_simulation_enabled: true,
        }
    }

    /// A keyframe at `frame_index` with the given pose and default
    /// descriptors.
    pub fn with_transform(frame_index: u32, translation: V3, orientation: Q4) -> (r: BoneKeyframe)
        ensures
            r == (BoneKeyframe {
                translation,
                orientation,
                ..spec_bone_keyframe_at(frame_index)
            }),
    {
        BoneKeyframe {
            frame_index,
            translation,
            orientation,
            interpolation_x: default_bezier_control_point(),
            interpolation_y: default_bezier_control_point(),
            interpolation_z: default_bezier_control_point(),
            interpolation_r: default_bezier_control_point(),
            is_physics_simulation_enabled: true,
        }
    }
}

impl Default for BoneKeyframe {
    /// The default keyframe at frame zero.
    fn default() -> (r: BoneKeyframe)
        ensures
            r == spec_bone_keyframe_at(0),
    {
        BoneKeyframe::new(0)
    }
}

/// One morph keyframe: a frame index and a scalar weight.
#[derive(Clone, Copy, Debug)]
pub struct MorphKeyframe {
    /// Frame index on the 30 FPS grid.
    pub frame_index: u32,
    /// The morph weight.
    pub weight: u32,
}

impl MorphKeyframe {
    /// A morph keyframe with the given weight.
    pub fn new(frame_index: u32, weight: u32) -> (r: MorphKeyframe)
        ensures
            r == (MorphKeyframe { frame_index, weight }),
    {
        MorphKeyframe { frame_index, weight }
    }
}

impl Default for MorphKeyframe {
    /// The default morph keyframe: frame zero, weight zero.
    fn default() -> (r: MorphKeyframe)
        ensures
            r == (MorphKeyframe { frame_index: 0, weight: K_ZERO }),
    {
        MorphKeyframe { frame_index: 0, weight: K_ZERO }
    }
}

/// One IK keyframe: a frame index, the solver's name and the enabled flag.
#[derive(Clone, Debug)]
pub struct IkKeyframe {
    /// Frame index on the 30 FPS grid.
    pub frame_index: u32,
    /// Name of the IK bone the flag addresses.
    pub ik_name: String,
    /// Whether the solver is enabled from this keyframe on.
    pub enabled: bool,
}

impl IkKeyframe {
    /// An IK keyframe for the named solver.
    pub fn new(frame_index: u32, ik_name: String, enabled: bool) -> (r: IkKeyframe)
        ensures
            r.frame_index == frame_index,
            r.ik_name@ == ik_name@,
            r.enabled == enabled,
    {
        IkKeyframe { frame_index, ik_name, enabled }
    }
}

/// The six camera interpolation descriptors.
#[derive(Clone, Copy, Debug)]
pub struct CameraInterpolation {
    /// Descriptor of the look-at X component.
    pub lookat_x: [u8; 4],
    /// Descriptor of the look-at Y component.
    pub lookat_y: [u8; 4],
    /// Descriptor of the look-at Z component.
    pub lookat_z: [u8; 4],
    /// Descriptor of the angle.
    pub angle: [u8; 4],
    /// Descriptor of the field of view.
    pub fov: [u8; 4],
    /// Descriptor of the distance.
    pub distance: [u8; 4],
}

/// The default camera interpolation: all six descriptors linear.
pub open spec fn spec_camera_interpolation_default() -> CameraInterpolation {
    CameraInterpolation {
        lookat_x: spec_default_bezier_control_point(),
        lookat_y: spec_default_bezier_control_point(),
        lookat_z: spec_default_bezier_control_point(),
        angle: spec_default_bezier_control_point(),
        fov: spec_default_bezier_control_point(),
        distance: spec_default_bezier_control_point(),
    }
}

impl Default for CameraInterpolation {
    /// All six descriptors linear.
    fn default() -> (r: CameraInterpolation)
        ensures
            r == spec_camera_interpolation_default(),
    {
        CameraInterpolation {
            lookat_x: default_bezier_control_point(),
            lookat_y: default_bezier_control_point(),
            lookat_z: default_bezier_control_point(),
            angle: default_bezier_control_point(),
            fov: default_bezier_control_point(),
            distance: default_bezier_control_point(),
        }
    }
}

/// One camera keyframe: raw look-at, angle, distance and field of view,
/// plus the six interpolation descriptors.
#[derive(Clone, Copy, Debug)]
pub struct CameraKeyframe {
    /// Frame index on the 30 FPS grid.
    pub frame_index: u32,
    /// The look-at target.
    pub look_at: V3,
    /// The camera angle in radians.
    pub angle: V3,
    /// The camera distance.
    pub distance: u32,
    /// The field of view.
    pub fov: u32,
    /// Whether the projection is perspective.
    pub is_perspective: bool,
    /// The six interpolation descriptors.
    pub interpolation: CameraInterpolation,
}

/// The default camera keyframe.
pub open spec fn spec_camera_keyframe_default() -> CameraKeyframe {
    CameraKeyframe {
        frame_index: 0,
        look_at: spec_v3_zero(),
        angle: spec_v3_zero(),
        distance: K_NEG_45,
        fov: K_30,
        is_perspective: true,
        interpolation: spec_camera_interpolation_default(),
    }
}

impl Default for CameraKeyframe {
    /// Frame zero, origin look-at, distance `-45`, field of view `30`.
    fn default() -> (r: CameraKeyframe)
        ensures
            r == spec_camera_keyframe_default(),
    {
        CameraKeyframe {
            frame_index: 0,
            look_at: crate::algebra::v3_zero(),
            angle: crate::algebra::v3_zero(),
            distance: K_NEG_45,
            fov: K_30,
            is_perspective: true,
            interpolation: CameraInterpolation::default(),
        }
    }
}

} // verus!
