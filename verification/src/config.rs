//! Tunable physics parameters with their defaults.

use vstd::prelude::*;

verus! {

/// The tunable physics parameters, all scalars as IEEE 754 bit patterns.
#[derive(Clone, Copy, Debug)]
pub struct PhysicsConfig {
    /// Gravity along Y (negative is down).
    pub gravity_y: u32,
    /// Simulation rate in steps per second.
    pub physics_fps: u32,
    /// Largest number of substeps per tick.
    pub max_substep_count: i32,
    /// Constraint solver iterations.
    pub solver_iterations: usize,
    /// Inner projected Gauss-Seidel iterations.
    pub pgs_iterations: usize,
    /// Largest penetration-correction velocity.
    pub max_corrective_velocity: u32,
    /// Scale on the declared linear damping.
    pub linear_damping_scale: u32,
    /// Scale on the declared angular damping.
    pub angular_damping_scale: u32,
    /// Scale on the declared mass.
    pub mass_scale: u32,
    /// Scale on the declared spring stiffness.
    pub spring_stiffness_scale: u32,
    /// Strength of the drag felt on root motion.
    pub inertia_strength: u32,
    /// Largest linear velocity.
    pub max_linear_velocity: u32,
    /// Largest angular velocity.
    pub max_angular_velocity: u32,
    /// Whether joints are built at all.
    pub joints_enabled: bool,
    /// Whether the bridge logs diagnostics.
    pub debug_log: bool,
}

/// The default parameters: gravity `-3.8`, sixty steps per second, four
/// substeps, eight solver iterations, damping scales `0.3` and `0.2`,
/// mass scale `2`, velocity caps at `5`, joints on.
pub open spec fn spec_config_default() -> PhysicsConfig {
    PhysicsConfig {
        gravity_y: 0xC073_3333,
        physics_fps: 0x4270_0000,
        max_substep_count: 4,
        solver_iterations: 8,
        pgs_iterations: 2,
        max_corrective_velocity: 0x3DCC_CCCD,
        linear_damping_scale: 0x3E99_999A,
        angular_damping_scale: 0x3E4C_CCCD,
        mass_scale: 0x4000_0000,
        spring_stiffness_scale: 0x3F80_0000,
        inertia_strength: 0x3F80_0000,
        max_linear_velocity: 0x40A0_0000,
        max_angular_velocity: 0x40A0_0000,
        joints_enabled: true,
        debug_log: false,
    }
}

impl Default for PhysicsConfig {
    /// The default parameters.
    fn default() -> (r: PhysicsConfig)
        ensures
            r == spec_config_default(),
    {
        PhysicsConfig {
            gravity_y: 0xC073_3333,
            physics_fps: 0x4270_0000,
            max_substep_count: 4,
            solver_iterations: 8,
            pgs_iterations: 2,
            max_corrective_velocity: 0x3DCC_CCCD,
            linear_damping_scale: 0x3E99_999A,
            angular_damping_scale: 0x3E4C_CCCD,
            mass_scale: 0x4000_0000,
            spring_stiffness_scale: 0x3F80_0000,
            inertia_strength: 0x3F80_0000,
            max_linear_velocity: 0x40A0_0000,
            max_angular_velocity: 0x40A0_0000,
            joints_enabled: true,
            debug_log: false,
        }
    }
}

/// Put the configuration back to its defaults.
pub fn reset_config(config: &mut PhysicsConfig)
    ensures
        *final(config) == spec_config_default(),
{
    *config = PhysicsConfig::default();
}

} // verus!
