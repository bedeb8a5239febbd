//! The type the greeting traits are implemented for.
use vstd::prelude::*;

verus! {

/// A type we implement the greeting traits for.
pub struct Person;

} // verus!
