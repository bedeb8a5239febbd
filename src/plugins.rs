//! Plugin discovery: each kind of registered item claims a dense, stable slot
//! index at run time, and a container holds one lazily made item per slot.
pub mod item_registry;
