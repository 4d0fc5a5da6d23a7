//! Runtime core for an MMD (MikuMikuDance) animation engine.
//!
//! The library drives a rigged model through keyframe animation, morph
//! deformation, CCD inverse kinematics and a rigid-body physics bridge.
//! Scalar values are carried as IEEE 754 single-precision bit patterns
//! (`u32`); the arithmetic itself is delegated to `glam` behind a small set
//! of trusted wrappers, while every decision made on those values (ordering,
//! dispatch, clamping, state machines) is verified.

pub mod algebra;
pub mod animation;
pub mod bezier;
pub mod bone;
pub mod bone_set;
pub mod camera;
pub mod config;
pub mod engine;
pub mod ik;
pub mod interpolation;
pub mod keyframe;
pub mod layer;
pub mod morph;
pub mod physics;
pub mod scalar;
pub mod track;
pub mod vpd;
