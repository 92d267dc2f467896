//! A minimal capacity ledger: a handle over an already-initialized run of
//! elements, with the two primitive capacity moves — narrowing, which
//! destroys a tail, and expanding, which re-initializes one.

use vstd::prelude::*;

use crate::raw_mem::defaulted;

verus! {

/// A handle that owns a run of elements and the obligation to destroy them.
#[derive(Debug)]
pub struct Base<T> {
    elems: Vec<T>,
}

impl<T> View for Base<T> {
    type V = Seq<T>;

    closed spec fn view(&self) -> Seq<T> {
        self.elems@
    }
}

impl<T> Base<T> {
    /// A handle over the given elements.
    pub fn new(elems: Vec<T>) -> (r: Self)
        ensures
            r@ == elems@,
    {
        Base { elems }
    }

    /// An empty handle: capacity 0, owning nothing.
    pub fn dangling() -> (r: Self)
        ensures
            r@ == Seq::<T>::empty(),
    {
        Base { elems: Vec::new() }
    }

    /// The number of elements the handle owns.
    pub fn allocated(&self) -> (r: usize)
        ensures
            r == self@.len(),
    {
        self.elems.len()
    }

    /// Destroys every element at index `capacity` and beyond.
    pub fn handle_narrow(&mut self, capacity: usize)
        requires
            capacity <= old(self)@.len(),
        ensures
            final(self)@ == old(self)@.subrange(0, capacity as int),
    {
        self.elems.truncate(capacity);
    }

    /// Re-initializes every element at index `capacity` and beyond to the
    /// element type's default value.
    pub fn handle_expand(&mut self, capacity: usize) where T: Default
        ensures
            final(self)@.len() == old(self)@.len(),
            forall|j: int| 0 <= j < capacity && j < old(self)@.len() ==> final(self)@[j] == old(
                self,
            )@[j],
            forall|j: int|
                capacity <= j < final(self)@.len() ==> defaulted(#[trigger] final(self)@[j]),
    {
        let n = self.elems.len();
        let mut i = capacity;
        while i < n
            invariant
                capacity <= i,
                i <= n || n <= capacity,
                n == self.elems@.len(),
                self.elems@.len() == old(self)@.len(),
                forall|j: int| 0 <= j < capacity && j < old(self)@.len() ==> self.elems@[j] == old(
                    self,
                )@[j],
                forall|j: int| capacity <= j < i ==> defaulted(#[trigger] self.elems@[j]),
            decreases n - i,
        {
            self.elems[i] = T::default();
            i += 1;
        }
    }
}

} // verus!
