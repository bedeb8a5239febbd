//! Verified building blocks for plugin discovery, by-value containers,
//! hashing behind a module boundary, sealed traits and type erasure.
pub mod data_structures;
pub mod hashing;
pub mod plugins;
pub mod shared_implementation;
pub mod type_erasure;
