//! Deterministic hierarchical identifiers; deriving one allocates nothing.
//!
//! Every identifier knows its parent's value, its depth and how many children
//! it has produced; from those it derives a 128-bit value used for equality,
//! hashing and display.
pub mod hex;
pub mod id;
pub mod laws;
pub mod mix;

pub use id::Id;
