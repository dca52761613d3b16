//! Sector-shape resolution for multi-level Merkle-tree decompositions.
//!
//! Given a storage sector's byte size, this library determines the canonical
//! decomposition of the sector's Merkle tree into a base level and optional
//! sub-tree and top-tree levels, each described by its arity. Three
//! components cooperate:
//!
//! * the calculator derives the arity triple from a power-of-two byte size
//!   by logarithmic decomposition with remainder handling;
//! * the registry enumerates the ten supported sector sizes and classifies
//!   each into one of four shape categories;
//! * the dispatcher routes a caller-supplied operation to the arity triple
//!   matching a runtime size value, failing on unrecognized sizes.

pub mod calculator;
pub mod dispatch;
pub mod registry;
pub mod shape;
