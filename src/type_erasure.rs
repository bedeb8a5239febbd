//! Type erasure: handles that reach the static data of a type without an
//! instance of it.
pub mod simple_static_vtable;
pub mod static_interface;
pub mod static_reference_to_zst;
