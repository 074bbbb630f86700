//! Tokens placed on a bounded three-dimensional integer grid: coordinates and
//! their Manhattan distance, the move economics derived from it, the per-token
//! travel state machine, and the narrowing of the extended message vocabulary
//! onto the base ownership-registry vocabulary.

pub mod geometry;
pub mod error;
pub mod config;
pub mod registry;
pub mod adapter;
