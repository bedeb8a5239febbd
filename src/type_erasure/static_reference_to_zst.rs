//! An erased handle that is a reference to a zero-sized value naming the
//! type, used through a trait object.
use core::marker::PhantomData;
use vstd::prelude::*;
use crate::type_erasure::static_interface::{MyStaticData, MyTrait};

verus! {

/// A zero-sized value that names `M`.
pub struct TypedTag<M: MyTrait>(PhantomData<M>);

/// The static interface with the type erased.
pub trait TypeErasedTag {
    fn get_static_dependency_data(&self) -> &'static MyStaticData;
}

impl<M: MyTrait> TypeErasedTag for TypedTag<M> {
    fn get_static_dependency_data(&self) -> &'static MyStaticData {
        M::get_static_dependency_data()
    }
}

/// The erased handle: a reference to a trait object.
pub type Tag = &'static dyn TypeErasedTag;

/// The erased handle of `M`.
pub fn tag_for<M: MyTrait + 'static>() -> Tag {
    &TypedTag::<M>(PhantomData)
}

} // verus!
