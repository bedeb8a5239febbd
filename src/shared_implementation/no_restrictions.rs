//! A plain public trait: every method is callable and overridable downstream.
use vstd::prelude::*;
use crate::shared_implementation::sealed_traits::Person;

verus! {

/// A greeting with a required method and an overridable default.
pub trait Greet {
    fn greet(&self) -> String;

    /// Visible, callable and overridable downstream.
    fn goodbye(&self) -> String {
        "Goodbye!".to_owned()
    }
}

impl Greet for Person {
    fn greet(&self) -> String {
        "Hi from a person!".to_owned()
    }

    fn goodbye(&self) -> String {
        "Bye from a person!".to_owned()
    }
}

} // verus!
