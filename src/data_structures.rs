//! Containers. `ValueVec` is a vector whose elements move in and out by value
//! and are read by copy or clone, never by reference.
pub mod value_vector;
