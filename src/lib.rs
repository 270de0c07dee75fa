//! Procedural cube geometry, texel synthesis and the input-driven view state
//! of a textured-cube scene.

pub mod control;
pub mod geometry;
pub mod texels;
