//! Sharing implementation through traits while controlling which methods a
//! downstream crate may call or override.
pub mod all_callable_some_overridable;
pub mod no_restrictions;
mod sealed;
pub mod sealed_traits;
