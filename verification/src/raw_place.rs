//! The capacity ledger every backend embeds: it owns the block's current
//! elements and with them the obligation to destroy exactly those elements
//! when the block shrinks or is dropped.

use vstd::prelude::*;

verus! {

/// A block's currently published elements. The ledger owns them, so dropping
/// the ledger destroys exactly the `[0, capacity)` region and nothing else.
#[derive(Debug)]
pub struct RawPlace<T> {
    elems: Vec<T>,
}

impl<T> View for RawPlace<T> {
    type V = Seq<T>;

    closed spec fn view(&self) -> Seq<T> {
        self.elems@
    }
}

impl<T> RawPlace<T> {
    /// An empty ledger: capacity 0, owning nothing.
    pub fn dangling() -> (r: Self)
        ensures
            r@ == Seq::<T>::empty(),
    {
        RawPlace { elems: Vec::new() }
    }

    /// The published capacity, in elements.
    pub fn cap(&self) -> (r: usize)
        ensures
            r == self@.len(),
    {
        self.elems.len()
    }

    /// The published region, readable.
    pub fn as_ref(&self) -> (r: &[T])
        ensures
            r@ == self@,
    {
        self.elems.as_slice()
    }

    /// The published region, writable.
    pub fn as_mut(&mut self) -> (r: &mut [T])
        ensures
            r@ == old(self)@,
            final(self)@ == final(r)@,
    {
        self.elems.as_mut_slice()
    }

    /// Publishes a fully initialized new region at the end of the block. The
    /// region arrives complete, so a grow whose initializer failed partway
    /// never reaches this point and the published capacity is unchanged.
    pub fn handle_fill(&mut self, fresh: Vec<T>)
        ensures
            final(self)@ == old(self)@ + fresh@,
    {
        let mut fresh = fresh;
        self.elems.append(&mut fresh);
    }

    /// Destroys every element at index `cap` and beyond, reducing the
    /// published capacity to `cap`.
    pub fn shrink_to(&mut self, cap: usize)
        requires
            cap <= old(self)@.len(),
        ensures
            final(self)@ == old(self)@.subrange(0, cap as int),
    {
        self.elems.truncate(cap);
    }
}

} // verus!
