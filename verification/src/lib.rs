//! A procedurally generated voxel scene: a cubic lattice of static, collidable
//! boxes, one free-fly camera, and the rule that ends the session.
//!
//! Every quantity that is a real number in the scene (colour channels, lengths,
//! angles) is carried as an exact fraction, so that the rules below can be
//! stated and proved without rounding.

pub mod camera;
pub mod collider;
pub mod color;
pub mod entity;
pub mod error;
pub mod geometry;
pub mod grid;
pub mod lattice;
pub mod physics;
pub mod ratio;
pub mod session;
pub mod world;
