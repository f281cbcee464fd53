//! Blob arena: circular particles that repel one another inside a bounded
//! arena, and the rasterizer that turns them into pixels.
//!
//! The scalar type of positions and forces is a parameter of every type here.
//! Contracts are stated over the specification that the scalar's operators
//! carry, so they are exact for every scalar that obeys its specification.

pub mod blob;
pub mod config;
pub mod grid;
pub mod laws;
pub mod math;
mod random;
pub mod raster;
pub mod vector2;
pub mod world;
