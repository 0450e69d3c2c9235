//! Cave generation parameter model and deterministic pre-placement engine.
//!
//! This crate models the generation parameters of a dungeon-crawling game's
//! procedural sublevels (map tiles, doors, spawn points, enemy/treasure/gate
//! definitions) together with the deterministic geometry algorithms that run
//! before any randomized placement: the intentionally unstable ordering of
//! candidate map tiles, the expansion of each tile into its four rotated
//! variants, and the precomputation of intra-tile door links.  Every
//! algorithm here is verified against a mathematical model of the data, so
//! that downstream seed-search tooling can rely on bit-for-bit agreement
//! with the reference generator.

pub mod hex;
pub mod links;
pub mod model;
pub mod order;
pub mod queries;
pub mod registry;
pub mod rotation;
pub mod text;
