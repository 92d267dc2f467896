//! Thin forwarding wrappers over the heap backend, one per allocator
//! flavour. Each is written out explicitly and delegates every protocol
//! operation to its inner block.

use vstd::prelude::*;

use crate::heap::Alloc;
use crate::raw_mem::{capacity_fits, Error, RawMem};

verus! {

/// A heap-backed block served by the program's global allocator.
#[derive(Debug)]
pub struct Global<T>(Alloc<T>);

/// A heap-backed block served by the operating system's allocator.
#[derive(Debug)]
pub struct System<T>(Alloc<T>);

impl<T> Global<T> {
    /// A new, empty block.
    pub fn new() -> (r: Self)
        ensures
            r.contents() == Seq::<T>::empty(),
    {
        Global(Alloc::new())
    }
}

impl<T> Default for Global<T> {
    fn default() -> (r: Self)
        ensures
            r.contents() == Seq::<T>::empty(),
    {
        Global::new()
    }
}

impl<T> RawMem for Global<T> {
    type Item = T;

    open spec fn wf(&self) -> bool {
        true
    }

    closed spec fn contents(&self) -> Seq<T> {
        self.0.contents()
    }

    open spec fn limit(&self) -> Option<int> {
        None
    }

    open spec fn can_grow(&self, addition: int) -> bool {
        capacity_fits::<T>(self.contents().len() + addition)
    }

    open spec fn grow_refusal(&self, addition: int) -> Error {
        Error::CapacityOverflow
    }

    fn allocated(&self) -> (r: &[T]) {
        self.0.allocated()
    }

    fn allocated_mut(&mut self) -> (r: &mut [T]) {
        self.0.allocated_mut()
    }

    fn grow_filled(&mut self, addition: usize, value: T) -> (r: Result<(), Error>) where
        T: Clone
     {
        self.0.grow_filled(addition, value)
    }

    fn grow_with<F: Fn(usize) -> T>(&mut self, addition: usize, f: F) -> (r: Result<(), Error>) {
        self.0.grow_with(addition, f)
    }

    fn grow_zeroed(&mut self, addition: usize) -> (r: Result<(), Error>) where T: Default {
        self.0.grow_zeroed(addition)
    }

    fn grow_from_slice(&mut self, src: &[T]) -> (r: Result<(), Error>) where T: Clone {
        self.0.grow_from_slice(src)
    }

    fn shrink(&mut self, count: usize) -> (r: Result<(), Error>) {
        self.0.shrink(count)
    }

    fn size_hint(&self) -> (r: Option<usize>) {
        self.0.size_hint()
    }
}

impl<T> System<T> {
    /// A new, empty block.
    pub fn new() -> (r: Self)
        ensures
            r.contents() == Seq::<T>::empty(),
    {
        System(Alloc::new())
    }
}

impl<T> Default for System<T> {
    fn default() -> (r: Self)
        ensures
            r.contents() == Seq::<T>::empty(),
    {
        System::new()
    }
}

impl<T> RawMem for System<T> {
    type Item = T;

    open spec fn wf(&self) -> bool {
        true
    }

    closed spec fn contents(&self) -> Seq<T> {
        self.0.contents()
    }

    open spec fn limit(&self) -> Option<int> {
        None
    }

    open spec fn can_grow(&self, addition: int) -> bool {
        capacity_fits::<T>(self.contents().len() + addition)
    }

    open spec fn grow_refusal(&self, addition: int) -> Error {
        Error::CapacityOverflow
    }

    fn allocated(&self) -> (r: &[T]) {
        self.0.allocated()
    }

    fn allocated_mut(&mut self) -> (r: &mut [T]) {
        self.0.allocated_mut()
    }

    fn grow_filled(&mut self, addition: usize, value: T) -> (r: Result<(), Error>) where
        T: Clone
     {
        self.0.grow_filled(addition, value)
    }

    fn grow_with<F: Fn(usize) -> T>(&mut self, addition: usize, f: F) -> (r: Result<(), Error>) {
        self.0.grow_with(addition, f)
    }

    fn grow_zeroed(&mut self, addition: usize) -> (r: Result<(), Error>) where T: Default {
        self.0.grow_zeroed(addition)
    }

    fn grow_from_slice(&mut self, src: &[T]) -> (r: Result<(), Error>) where T: Clone {
        self.0.grow_from_slice(src)
    }

    fn shrink(&mut self, count: usize) -> (r: Result<(), Error>) {
        self.0.shrink(count)
    }

    fn size_hint(&self) -> (r: Option<usize>) {
        self.0.size_hint()
    }
}

} // verus!
