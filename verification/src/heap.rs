//! The heap backend: the backing store is a block owned on the process heap,
//! resized through the growth protocol's capacity arithmetic.

use vstd::prelude::*;

use crate::raw_mem::{
    capacity_fits, cloned_region, defaulted_region, filled_region, grow_plan, region_with, Error,
    RawMem,
};
use crate::raw_place::RawPlace;

verus! {

/// A heap-backed block. Created empty; grow and shrink resize the owned
/// region, and dropping the block destroys every element it still owns
/// before the storage is released.
#[derive(Debug)]
pub struct Alloc<T> {
    buf: RawPlace<T>,
}

impl<T> Alloc<T> {
    /// A new, empty heap-backed block.
    pub fn new() -> (r: Self)
        ensures
            r.contents() == Seq::<T>::empty(),
    {
        Alloc { buf: RawPlace::dangling() }
    }
}

impl<T> RawMem for Alloc<T> {
    type Item = T;

    open spec fn wf(&self) -> bool {
        true
    }

    closed spec fn contents(&self) -> Seq<T> {
        self.buf@
    }

    open spec fn limit(&self) -> Option<int> {
        None
    }

    open spec fn can_grow(&self, addition: int) -> bool {
        capacity_fits::<T>(self.contents().len() + addition)
    }

    open spec fn grow_refusal(&self, addition: int) -> Error {
        Error::CapacityOverflow
    }

    fn allocated(&self) -> (r: &[T]) {
        self.buf.as_ref()
    }

    fn allocated_mut(&mut self) -> (r: &mut [T]) {
        self.buf.as_mut()
    }

    fn grow_filled(&mut self, addition: usize, value: T) -> (r: Result<(), Error>) where T: Clone {
        match grow_plan::<T>(self.buf.cap(), addition) {
            Err(e) => Err(e),
            Ok(_plan) => {
                let fresh = filled_region(addition, value);
                self.buf.handle_fill(fresh);
                proof {
                    assert(final(self).contents().subrange(0, old(self).contents().len() as int)
                        =~= old(self).contents());
                }
                Ok(())
            },
        }
    }

    fn grow_with<F: Fn(usize) -> T>(&mut self, addition: usize, f: F) -> (r: Result<(), Error>) {
        match grow_plan::<T>(self.buf.cap(), addition) {
            Err(e) => Err(e),
            Ok(_plan) => {
                let fresh = region_with(addition, f);
                self.buf.handle_fill(fresh);
                proof {
                    assert(final(self).contents().subrange(0, old(self).contents().len() as int)
                        =~= old(self).contents());
                }
                Ok(())
            },
        }
    }

    fn grow_zeroed(&mut self, addition: usize) -> (r: Result<(), Error>) where T: Default {
        match grow_plan::<T>(self.buf.cap(), addition) {
            Err(e) => Err(e),
            Ok(_plan) => {
                let fresh = defaulted_region(addition);
                self.buf.handle_fill(fresh);
                proof {
                    assert(final(self).contents().subrange(0, old(self).contents().len() as int)
                        =~= old(self).contents());
                }
                Ok(())
            },
        }
    }

    fn grow_from_slice(&mut self, src: &[T]) -> (r: Result<(), Error>) where T: Clone {
        match grow_plan::<T>(self.buf.cap(), src.len()) {
            Err(e) => Err(e),
            Ok(_plan) => {
                let fresh = cloned_region(src);
                self.buf.handle_fill(fresh);
                proof {
                    assert(final(self).contents().subrange(0, old(self).contents().len() as int)
                        =~= old(self).contents());
                }
                Ok(())
            },
        }
    }

    fn shrink(&mut self, count: usize) -> (r: Result<(), Error>) {
        let cap = self.buf.cap() - count;
        self.buf.shrink_to(cap);
        Ok(())
    }

    fn size_hint(&self) -> (r: Option<usize>) {
        None
    }
}

} // verus!
