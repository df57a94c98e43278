//! Verified core of a Monte Carlo path-tracing renderer.
//!
//! The renderer's integer-valued logic lives here: the Perlin permutation
//! tables and lattice hashing that drive procedural noise, the byte-level
//! raster sampling behind image textures, the decisions of the recursive
//! path integrator, the structural skeleton of the bounding-volume
//! hierarchy, and the output-format decision. The floating-point geometry
//! and light transport surrounding this core is ordinary unverified Rust in
//! the accompanying application.

pub mod bvh;
pub mod integrator;
pub mod output;
pub mod perlin;
pub mod texture;

mod rng;
