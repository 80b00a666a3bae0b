//! Core of a voxel world engine: deterministic terrain generation over a
//! precomputed height field, chunk-local block storage with neighbour-aware
//! lookups, fixed-shape structure (tree) placement, mesh extraction with
//! per-vertex ambient occlusion, and the horizontal frustum-visibility
//! decision.
//!
//! Geometry is kept in exact integer form throughout: block positions are
//! integer lattice points, cube corners live on the half-unit lattice (twice
//! the coordinate), and texture coordinates are expressed in atlas cells.
//! Callers that need floating-point buffers for a GPU scale these integers
//! at the boundary.

pub mod block;
pub mod block_type;
pub mod chunk;
pub mod collision;
pub mod effects;
pub mod noise;
pub mod random;
pub mod structures;
pub mod utils;
pub mod world;
