//! `ValueVec<V>`: a vector that hands out no references to its elements.
//! Values are moved in and out, and reads return a copy or a clone. It
//! converts to and from `Vec<V>` without copying.
use std::fmt::Debug;
use vstd::prelude::*;
use vstd::std_specs::cmp::PartialEqSpec;

verus! {

/// A vector whose elements are moved in and out by value.
pub struct ValueVec<V> {
    data: Vec<V>,
}

impl<V> View for ValueVec<V> {
    type V = Seq<V>;

    closed spec fn view(&self) -> Seq<V> {
        self.data@
    }
}

/// Relies on `Vec::capacity`, which std documents to be at least the length.
#[verifier::external_body]
fn vec_capacity<V>(v: &Vec<V>) -> (r: usize)
    ensures
        r >= v@.len(),
{
    v.capacity()
}

/// Relies on `Vec::shrink_to_fit`, which changes the capacity only.
#[verifier::external_body]
fn vec_shrink_to_fit<V>(v: &mut Vec<V>)
    ensures
        final(v)@ == old(v)@,
{
    v.shrink_to_fit()
}

/// Relies on the `Debug` impl of `Vec`: the elements in brackets.
#[verifier::external_body]
fn vec_debug_text<V: Debug>(v: &Vec<V>) -> String {
    format!("{:?}", v)
}

impl<V> ValueVec<V> {
    /// An empty vector.
    pub fn new() -> (r: Self)
        ensures
            r@ == Seq::<V>::empty(),
    {
        ValueVec { data: Vec::new() }
    }

    /// An empty vector with room for `cap` elements.
    pub fn with_capacity(cap: usize) -> (r: Self)
        ensures
            r@ == Seq::<V>::empty(),
    {
        ValueVec { data: Vec::with_capacity(cap) }
    }

    /// The number of elements.
    pub fn len(&self) -> (n: usize)
        ensures
            n == self@.len(),
    {
        self.data.len()
    }

    /// The number of elements the backing storage holds without growing.
    pub fn capacity(&self) -> (n: usize)
        ensures
            n >= self@.len(),
    {
        vec_capacity(&self.data)
    }

    /// Whether there are no elements.
    pub fn is_empty(&self) -> (r: bool)
        ensures
            r == (self@.len() == 0),
    {
        self.data.len() == 0
    }

    /// Makes room for at least `additional` more elements.
    pub fn reserve(&mut self, additional: usize)
        ensures
            final(self)@ == old(self)@,
    {
        self.data.reserve(additional)
    }

    /// Gives back unused room.
    pub fn shrink_to_fit(&mut self)
        ensures
            final(self)@ == old(self)@,
    {
        vec_shrink_to_fit(&mut self.data)
    }

    /// Moves `value` onto the end.
    pub fn push(&mut self, value: V)
        ensures
            final(self)@ == old(self)@.push(value),
    {
        self.data.push(value)
    }

    /// Moves the last element out, or returns `None` when empty.
    pub fn pop(&mut self) -> (r: Option<V>)
        ensures
            old(self)@.len() == 0 ==> r is None && final(self)@ == old(self)@,
            old(self)@.len() > 0 ==> r == Some(old(self)@.last()) && final(self)@ == old(self)@.drop_last(),
    {
        self.data.pop()
    }

    /// A clone of the element at `index`, or `None` past the end.
    pub fn get_cloned(&self, index: usize) -> (r: Option<V>)
        where V: Clone,
        ensures
            index >= self@.len() ==> r is None,
            index < self@.len() ==> r is Some && cloned(self@[index as int], r->Some_0),
    {
        if index < self.data.len() {
            Some(self.data[index].clone())
        } else {
            None
        }
    }

    /// A copy of the element at `index`.
    pub fn at(&self, index: usize) -> (r: V)
        where V: Copy,
        requires
            index < self@.len(),
        ensures
            r == self@[index as int],
    {
        self.data[index]
    }

    /// Moves `value` into slot `index` and the old element out, or returns
    /// `None`, changing nothing, past the end.
    pub fn replace(&mut self, index: usize, value: V) -> (r: Option<V>)
        ensures
            index >= old(self)@.len() ==> r is None && final(self)@ == old(self)@,
            index < old(self)@.len() ==> r == Some(old(self)@[index as int])
                && final(self)@ == old(self)@.update(index as int, value),
    {
        if index < self.data.len() {
            let mut value = value;
            std::mem::swap(&mut self.data[index], &mut value);
            Some(value)
        } else {
            None
        }
    }

    /// Swaps the element at `index` with `*value`.
    pub fn swap_value(&mut self, index: usize, value: &mut V)
        requires
            index < old(self)@.len(),
        ensures
            *final(value) == old(self)@[index as int],
            final(self)@ == old(self)@.update(index as int, *old(value)),
    {
        std::mem::swap(&mut self.data[index], value);
    }

    /// Inserts `value` at `index`, shifting later elements right.
    pub fn insert(&mut self, index: usize, value: V)
        requires
            index <= old(self)@.len(),
        ensures
            final(self)@ == old(self)@.insert(index as int, value),
    {
        self.data.insert(index, value)
    }

    /// Removes the element at `index`, shifting later elements left.
    pub fn remove(&mut self, index: usize) -> (r: V)
        requires
            index < old(self)@.len(),
        ensures
            r == old(self)@[index as int],
            final(self)@ == old(self)@.remove(index as int),
    {
        self.data.remove(index)
    }

    /// Removes the element at `index`, moving the last element into its place.
    pub fn swap_remove(&mut self, index: usize) -> (r: V)
        requires
            index < old(self)@.len(),
        ensures
            r == old(self)@[index as int],
            final(self)@ == old(self)@.update(index as int, old(self)@.last()).drop_last(),
    {
        self.data.swap_remove(index)
    }

    /// Whether some element equals `value`.
    pub fn contains(&self, value: &V) -> (r: bool)
        where V: PartialEq,
        ensures
            V::obeys_eq_spec() ==> r == exists|i: int| 0 <= i < self@.len() && self@[i].eq_spec(value),
    {
        let mut i: usize = 0;
        while i < self.data.len()
            invariant
                i <= self@.len(),
                V::obeys_eq_spec() ==> forall|j: int| 0 <= j < i ==> !self@[j].eq_spec(value),
            decreases self@.len() - i,
        {
            if self.data[i] == *value {
                return true;
            }
            i = i + 1;
        }
        false
    }

    /// Removes every element.
    pub fn clear(&mut self)
        ensures
            final(self)@ == Seq::<V>::empty(),
    {
        self.data.clear()
    }

    /// Moves the elements of `items` onto the end, in order.
    pub fn extend(&mut self, items: Vec<V>)
        ensures
            final(self)@ == old(self)@ + items@,
    {
        let mut items = items;
        self.data.append(&mut items)
    }

    /// A clone of every element, in order.
    pub fn to_vec(&self) -> (r: Vec<V>)
        where V: Clone,
        ensures
            r@.len() == self@.len(),
            forall|i: int| 0 <= i < self@.len() ==> cloned(self@[i], r@[i]),
    {
        self.data.clone()
    }

    /// The elements as `Vec`'s `Debug` impl writes them.
    pub fn debug_text(&self) -> String
        where V: Debug,
    {
        vec_debug_text(&self.data)
    }

    /// The backing vector, taken out without copying.
    pub fn into_vec(self) -> (r: Vec<V>)
        ensures
            r@ == self@,
    {
        self.data
    }
}

impl<V> Default for ValueVec<V> {
    fn default() -> (r: Self)
        ensures
            r@ == Seq::<V>::empty(),
    {
        ValueVec::new()
    }
}

impl<V> From<Vec<V>> for ValueVec<V> {
    /// Wraps `src` without copying its elements.
    fn from(src: Vec<V>) -> (r: Self)
        ensures
            r@ == src@,
    {
        ValueVec { data: src }
    }
}

impl<V> vstd::std_specs::convert::FromSpecImpl<Vec<V>> for ValueVec<V> {
    open spec fn obeys_from_spec() -> bool {
        true
    }

    closed spec fn from_spec(v: Vec<V>) -> Self {
        ValueVec { data: v }
    }
}

impl<V> From<ValueVec<V>> for Vec<V> {
    /// Unwraps the backing vector without copying.
    fn from(val: ValueVec<V>) -> (r: Self)
        ensures
            r@ == val@,
    {
        val.data
    }
}

impl<V> vstd::std_specs::convert::FromSpecImpl<ValueVec<V>> for Vec<V> {
    open spec fn obeys_from_spec() -> bool {
        true
    }

    closed spec fn from_spec(v: ValueVec<V>) -> Self {
        v.data
    }
}

impl<V> IntoIterator for ValueVec<V> {
    type Item = V;
    type IntoIter = std::vec::IntoIter<V>;

    /// Consumes the vector, yielding its elements in order.
    fn into_iter(self) -> Self::IntoIter {
        self.data.into_iter()
    }
}

} // verus!
