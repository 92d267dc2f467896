//! The fixed-buffer backend: the backing store is a caller-supplied buffer of
//! fixed length that is never resized. A grow only advances a used-length
//! cursor inside that buffer, and a shrink only retreats it; slots beyond the
//! cursor keep whatever the previous owner left in them until a later grow
//! re-initializes them.

use vstd::prelude::*;

use crate::raw_mem::{defaulted, Error, RawMem};

verus! {

/// A block carved out of a caller-owned buffer with a hard upper bound.
#[derive(Debug)]
pub struct PreAlloc<T> {
    place: Vec<T>,
    used: usize,
}

impl<T> PreAlloc<T> {
    /// A block over the caller's buffer, initially empty: the whole buffer is
    /// still unclaimed and bounds every later grow.
    pub fn new(place: Vec<T>) -> (r: Self)
        ensures
            r.wf(),
            r.contents() == Seq::<T>::empty(),
            r.limit() == Some(place@.len() as int),
    {
        PreAlloc { place, used: 0 }
    }
}

impl<T> RawMem for PreAlloc<T> {
    type Item = T;

    closed spec fn wf(&self) -> bool {
        self.used <= self.place@.len()
    }

    closed spec fn contents(&self) -> Seq<T> {
        self.place@.subrange(0, self.used as int)
    }

    closed spec fn limit(&self) -> Option<int> {
        Some(self.place@.len() as int)
    }

    open spec fn can_grow(&self, addition: int) -> bool {
        self.contents().len() + addition <= self.limit().unwrap()
    }

    open spec fn grow_refusal(&self, addition: int) -> Error {
        if self.contents().len() + addition > usize::MAX {
            Error::CapacityOverflow
        } else {
            Error::OverAlloc {
                available: self.limit().unwrap() as usize,
                to_alloc: (self.contents().len() + addition) as usize,
            }
        }
    }

    fn allocated(&self) -> (r: &[T]) {
        vstd::slice::slice_subrange(self.place.as_slice(), 0, self.used)
    }

    fn allocated_mut(&mut self) -> (r: &mut [T]) {
        let used = self.used;
        let full = self.place.as_mut_slice();
        let (head, _tail) = full.split_at_mut(used);
        head
    }

    fn grow_filled(&mut self, addition: usize, value: T) -> (r: Result<(), Error>) where
        T: Clone
     {
        let available = self.place.len();
        match self.used.checked_add(addition) {
            None => Err(Error::CapacityOverflow),
            Some(cap) => {
                if cap > available {
                    Err(Error::OverAlloc { available, to_alloc: cap })
                } else {
                    let mut i = self.used;
                    while i < cap
                        invariant
                            self.used <= i <= cap <= self.place@.len(),
                            self.used == old(self).used,
                            self.place@.len() == old(self).place@.len(),
                            forall|j: int|
                                0 <= j < self.used ==> self.place@[j] == old(self).place@[j],
                            forall|j: int|
                                cap <= j < self.place@.len() ==> self.place@[j] == old(
                                    self,
                                ).place@[j],
                            forall|j: int|
                                self.used <= j < i ==> cloned(value, #[trigger] self.place@[j]),
                        decreases cap - i,
                    {
                        self.place[i] = value.clone();
                        i += 1;
                    }
                    self.used = cap;
                    proof {
                        assert(final(self).contents().subrange(
                            0,
                            old(self).contents().len() as int,
                        ) =~= old(self).contents());
                    }
                    Ok(())
                }
            },
        }
    }

    fn grow_with<F: Fn(usize) -> T>(&mut self, addition: usize, f: F) -> (r: Result<(), Error>) {
        let available = self.place.len();
        match self.used.checked_add(addition) {
            None => Err(Error::CapacityOverflow),
            Some(cap) => {
                if cap > available {
                    Err(Error::OverAlloc { available, to_alloc: cap })
                } else {
                    let mut i = self.used;
                    while i < cap
                        invariant
                            self.used <= i <= cap <= self.place@.len(),
                            self.used == old(self).used,
                            cap - self.used == addition,
                            self.place@.len() == old(self).place@.len(),
                            forall|j: usize| j < addition ==> call_requires(f, (j,)),
                            forall|j: int|
                                0 <= j < self.used ==> self.place@[j] == old(self).place@[j],
                            forall|j: int|
                                cap <= j < self.place@.len() ==> self.place@[j] == old(
                                    self,
                                ).place@[j],
                            forall|j: int|
                                self.used <= j < i ==> call_ensures(
                                    f,
                                    ((j - self.used) as usize,),
                                    #[trigger] self.place@[j],
                                ),
                        decreases cap - i,
                    {
                        let v = f(i - self.used);
                        self.place[i] = v;
                        i += 1;
                    }
                    self.used = cap;
                    proof {
                        assert(final(self).contents().subrange(
                            0,
                            old(self).contents().len() as int,
                        ) =~= old(self).contents());
                    }
                    Ok(())
                }
            },
        }
    }

    fn grow_zeroed(&mut self, addition: usize) -> (r: Result<(), Error>) where T: Default {
        let available = self.place.len();
        match self.used.checked_add(addition) {
            None => Err(Error::CapacityOverflow),
            Some(cap) => {
                if cap > available {
                    Err(Error::OverAlloc { available, to_alloc: cap })
                } else {
                    let mut i = self.used;
                    while i < cap
                        invariant
                            self.used <= i <= cap <= self.place@.len(),
                            self.used == old(self).used,
                            self.place@.len() == old(self).place@.len(),
                            forall|j: int|
                                0 <= j < self.used ==> self.place@[j] == old(self).place@[j],
                            forall|j: int|
                                cap <= j < self.place@.len() ==> self.place@[j] == old(
                                    self,
                                ).place@[j],
                            forall|j: int|
                                self.used <= j < i ==> defaulted(#[trigger] self.place@[j]),
                        decreases cap - i,
                    {
                        self.place[i] = T::default();
                        i += 1;
                    }
                    self.used = cap;
                    proof {
                        assert(final(self).contents().subrange(
                            0,
                            old(self).contents().len() as int,
                        ) =~= old(self).contents());
                    }
                    Ok(())
                }
            },
        }
    }

    fn grow_from_slice(&mut self, src: &[T]) -> (r: Result<(), Error>) where T: Clone {
        let available = self.place.len();
        match self.used.checked_add(src.len()) {
            None => Err(Error::CapacityOverflow),
            Some(cap) => {
                if cap > available {
                    Err(Error::OverAlloc { available, to_alloc: cap })
                } else {
                    let mut i = self.used;
                    while i < cap
                        invariant
                            self.used <= i <= cap <= self.place@.len(),
                            self.used == old(self).used,
                            cap - self.used == src@.len(),
                            self.place@.len() == old(self).place@.len(),
                            forall|j: int|
                                0 <= j < self.used ==> self.place@[j] == old(self).place@[j],
                            forall|j: int|
                                cap <= j < self.place@.len() ==> self.place@[j] == old(
                                    self,
                                ).place@[j],
                            forall|j: int|
                                self.used <= j < i ==> cloned(
                                    src@[j - self.used],
                                    #[trigger] self.place@[j],
                                ),
                        decreases cap - i,
                    {
                        let v = src[i - self.used].clone();
                        self.place[i] = v;
                        i += 1;
                    }
                    self.used = cap;
                    proof {
                        assert(final(self).contents().subrange(
                            0,
                            old(self).contents().len() as int,
                        ) =~= old(self).contents());
                    }
                    Ok(())
                }
            },
        }
    }

    fn shrink(&mut self, count: usize) -> (r: Result<(), Error>) {
        self.used = self.used - count;
        proof {
            assert(final(self).contents() =~= old(self).contents().subrange(
                0,
                old(self).contents().len() - count,
            ));
        }
        Ok(())
    }

    fn size_hint(&self) -> (r: Option<usize>) {
        Some(self.place.len() - self.used)
    }
}

} // verus!
