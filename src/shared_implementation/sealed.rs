//! The seal: a public trait in a private module, so only this crate can
//! implement it.
use vstd::prelude::*;
use crate::shared_implementation::sealed_traits::Person;

verus! {

/// Only this crate can implement `Sealed`, as its module is private.
pub trait Sealed {}

impl Sealed for Person {}

} // verus!
