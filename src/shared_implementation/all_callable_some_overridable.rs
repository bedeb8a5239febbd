//! A trait with a sealed supertrait: callable by anyone, implementable only
//! here, with a method whose signature downstream code cannot name.
use vstd::prelude::*;
use vstd::string::*;
use crate::shared_implementation::sealed::Sealed;
use crate::shared_implementation::sealed_traits::Person;

verus! {

/// A greeting that only this crate can implement.
pub trait Greet: Sealed {
    /// Overridable.
    fn greet(&self) -> String {
        "Hello from default".to_owned()
    }

    /// Not overridable in effect: it is built from `final_greet_impl`.
    fn final_greet(&self) -> String {
        "(final) ".to_owned().concat(Self::final_greet_impl())
    }

    /// The sealed part of the final greeting.
    fn final_greet_impl() -> &'static str {
        "Hello world"
    }
}

impl Greet for Person {}

} // verus!
