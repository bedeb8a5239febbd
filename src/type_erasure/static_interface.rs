//! A trait through which a type exposes static data, and that data.
use vstd::prelude::*;

verus! {

/// Implemented by a type that exposes static data without an instance.
pub trait MyTrait {
    fn get_static_dependency_data() -> &'static MyStaticData;
}

/// The static data a type exposes.
pub struct MyStaticData {
    pub msg: &'static str,
}

} // verus!
