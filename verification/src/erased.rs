//! A narrowed view of the growth protocol usable behind dynamic dispatch.
//! Arbitrary generic initializers cannot cross a dynamic-dispatch boundary,
//! so the adapter offers only a fixed set of initializer strategies —
//! fill-with-value and fill-with-default — implemented once for every backend
//! through a blanket impl.

use vstd::prelude::*;

use crate::raw_mem::{defaulted, Error, RawMem};

verus! {

/// The growth protocol without generic methods: every method is
/// dispatchable, so `dyn ErasedMem` works where the backend is chosen at run
/// time.
pub trait ErasedMem {
    type Item: Clone + Default;

    /// The backend's internal well-formedness.
    spec fn wf(&self) -> bool;

    /// The elements the block currently owns, in order.
    spec fn contents(&self) -> Seq<Self::Item>;

    /// Upper bound on the total capacity, `None` when unbounded.
    spec fn limit(&self) -> Option<int>;

    /// Whether a grow by `addition` elements succeeds.
    spec fn can_grow(&self, addition: int) -> bool;

    /// The error a grow by `addition` reports when it cannot proceed.
    spec fn grow_refusal(&self, addition: int) -> Error;

    /// The current `[0, capacity)` region.
    fn allocated(&self) -> (r: &[Self::Item])
        requires
            self.wf(),
        ensures
            r@ == self.contents(),
    ;

    /// The current `[0, capacity)` region, writable.
    fn allocated_mut(&mut self) -> (r: &mut [Self::Item])
        requires
            old(self).wf(),
        ensures
            r@ == old(self).contents(),
            final(r)@.len() == r@.len() ==> final(self).wf() && final(self).contents()
                == final(r)@ && final(self).limit() == old(self).limit(),
    ;

    /// Grows the block by `addition` elements, each initialized to a clone of
    /// `value`.
    fn grow_filled(&mut self, addition: usize, value: Self::Item) -> (r: Result<(), Error>)
        requires
            old(self).wf(),
        ensures
            final(self).wf(),
            r is Ok <==> old(self).can_grow(addition as int),
            r is Ok ==> final(self).contents().len() == old(self).contents().len() + addition
                && final(self).contents().subrange(0, old(self).contents().len() as int) == old(
                self,
            ).contents() && (forall|i: int|
                old(self).contents().len() <= i < final(self).contents().len() ==> cloned(
                    value,
                    #[trigger] final(self).contents()[i],
                )) && final(self).limit() == old(self).limit(),
            r matches Err(e) ==> e == old(self).grow_refusal(addition as int) && final(self).contents() == old(self).contents() && final(self).limit() == old(self).limit(),
    ;

    /// Grows the block by `addition` elements, each initialized to the
    /// element type's all-default value.
    fn grow_zeroed(&mut self, addition: usize) -> (r: Result<(), Error>)
        requires
            old(self).wf(),
        ensures
            final(self).wf(),
            r is Ok <==> old(self).can_grow(addition as int),
            r is Ok ==> final(self).contents().len() == old(self).contents().len() + addition
                && final(self).contents().subrange(0, old(self).contents().len() as int) == old(
                self,
            ).contents() && (forall|i: int|
                old(self).contents().len() <= i < final(self).contents().len() ==> defaulted(
                    #[trigger] final(self).contents()[i],
                )) && final(self).limit() == old(self).limit(),
            r matches Err(e) ==> e == old(self).grow_refusal(addition as int) && final(self).contents() == old(self).contents() && final(self).limit() == old(self).limit(),
    ;

    /// Shrinks the block by its trailing `count` elements, destroying them.
    fn shrink(&mut self, count: usize) -> (r: Result<(), Error>)
        requires
            old(self).wf(),
            count <= old(self).contents().len(),
        ensures
            final(self).wf(),
            r is Ok,
            final(self).contents() == old(self).contents().subrange(
                0,
                old(self).contents().len() - count,
            ),
            final(self).limit() == old(self).limit(),
    ;

    /// An upper bound on how much more capacity is obtainable.
    fn size_hint(&self) -> (r: Option<usize>)
        requires
            self.wf(),
        ensures
            match self.limit() {
                None => r is None,
                Some(l) => r == Some((l - self.contents().len()) as usize),
            },
    ;
}

impl<M: RawMem> ErasedMem for M where M::Item: Clone + Default {
    type Item = M::Item;

    open spec fn wf(&self) -> bool {
        <M as RawMem>::wf(self)
    }

    open spec fn contents(&self) -> Seq<M::Item> {
        <M as RawMem>::contents(self)
    }

    open spec fn limit(&self) -> Option<int> {
        <M as RawMem>::limit(self)
    }

    open spec fn can_grow(&self, addition: int) -> bool {
        <M as RawMem>::can_grow(self, addition)
    }

    open spec fn grow_refusal(&self, addition: int) -> Error {
        <M as RawMem>::grow_refusal(self, addition)
    }

    fn allocated(&self) -> (r: &[M::Item]) {
        <M as RawMem>::allocated(self)
    }

    fn allocated_mut(&mut self) -> (r: &mut [M::Item]) {
        <M as RawMem>::allocated_mut(self)
    }

    fn grow_filled(&mut self, addition: usize, value: M::Item) -> (r: Result<(), Error>) {
        <M as RawMem>::grow_filled(self, addition, value)
    }

    fn grow_zeroed(&mut self, addition: usize) -> (r: Result<(), Error>) {
        <M as RawMem>::grow_zeroed(self, addition)
    }

    fn shrink(&mut self, count: usize) -> (r: Result<(), Error>) {
        <M as RawMem>::shrink(self, count)
    }

    fn size_hint(&self) -> (r: Option<usize>) {
        <M as RawMem>::size_hint(self)
    }
}

} // verus!
