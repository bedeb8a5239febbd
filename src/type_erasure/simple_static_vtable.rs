//! An erased handle that is a small copyable table: it holds what the type's
//! static interface gives, and nothing names the type any more.
use core::marker::PhantomData;
use vstd::prelude::*;
use crate::type_erasure::static_interface::{MyStaticData, MyTrait};

verus! {

/// The static interface of some type `M: MyTrait`, with `M` erased.
#[derive(Copy, Clone)]
pub struct StaticMyTraitInterface {
    static_dependency_data: &'static MyStaticData,
}

impl StaticMyTraitInterface {
    /// The data this handle reaches.
    pub closed spec fn data(&self) -> &'static MyStaticData {
        self.static_dependency_data
    }

    /// The interface of `M`.
    pub fn of<M: MyTrait>() -> (r: Self)
        ensures
            call_ensures(M::get_static_dependency_data, (), r.data()),
    {
        StaticMyTraitInterface { static_dependency_data: M::get_static_dependency_data() }
    }

    /// The static data of the erased type.
    pub fn get_data(&self) -> (r: &'static MyStaticData)
        ensures
            r == self.data(),
    {
        self.static_dependency_data
    }
}

/// A holder per type `M` that builds `M`'s table.
pub struct VTableHolder<M: MyTrait>(PhantomData<M>);

impl<M: MyTrait> VTableHolder<M> {
    /// The table of `M`.
    pub fn table() -> (r: StaticMyTraitInterface)
        ensures
            call_ensures(M::get_static_dependency_data, (), r.data()),
    {
        StaticMyTraitInterface::of::<M>()
    }
}

/// The erased handle.
pub type Tag = StaticMyTraitInterface;

/// The erased handle of `M`.
pub fn tag_for<M: MyTrait>() -> (r: Tag)
    ensures
        call_ensures(M::get_static_dependency_data, (), r.data()),
{
    VTableHolder::<M>::table()
}

} // verus!
