//! The file-backed backend without memory mapping: the live storage is an
//! in-memory buffer, and the file is only a persistence target written by
//! explicit, separately scheduled read/write calls. Mapped I/O cannot be
//! asynchronous, so this backend never maps; the I/O itself happens outside
//! the block, which only tracks what there is to persist.
//!
//! Every mutation marks the block dirty; only an explicit persist call clears
//! the flag, and dropping the block never writes to the file.

use vstd::prelude::*;

use crate::raw_mem::{
    capacity_fits, cloned_region, defaulted, defaulted_region, filled_region, grow_plan,
    region_with, Error,
};

verus! {

/// Relies on `std::path::PathBuf` as an opaque value: the library stores the
/// persistence target and hands it back without reading it.
#[verifier::external_type_specification]
#[verifier::external_body]
pub struct ExPathBuf(std::path::PathBuf);

/// File-backed block with explicit persistence. The in-memory buffer is the
/// live storage; `path` is the persistence target, `None` for a block that is
/// never persisted; `dirty` records unsynced mutations.
#[derive(Debug)]
pub struct AsyncFileMem<T> {
    buffer: Vec<T>,
    path: Option<std::path::PathBuf>,
    dirty: bool,
}

impl<T> AsyncFileMem<T> {
    /// The elements the block currently holds, in order.
    pub closed spec fn contents(&self) -> Seq<T> {
        self.buffer@
    }

    /// Whether unsynced mutations exist.
    pub closed spec fn dirty_flag(&self) -> bool {
        self.dirty
    }

    /// The persistence target.
    pub closed spec fn file_path(&self) -> Option<std::path::PathBuf> {
        self.path
    }

    /// Whether a grow by `addition` elements succeeds.
    pub open spec fn can_grow(&self, addition: int) -> bool {
        capacity_fits::<T>(self.contents().len() + addition)
    }

    /// A block over an already-loaded buffer, pointed at its persistence
    /// target and starting clean: the buffer is taken to mirror the file.
    pub fn from_parts(buffer: Vec<T>, path: Option<std::path::PathBuf>) -> (r: Self)
        ensures
            r.contents() == buffer@,
            r.file_path() == path,
            !r.dirty_flag(),
    {
        AsyncFileMem { buffer, path, dirty: false }
    }

    /// The persistence target, `None` for a block that is never persisted.
    pub fn path(&self) -> (r: &Option<std::path::PathBuf>)
        ensures
            *r == self.file_path(),
    {
        &self.path
    }

    /// The number of elements currently allocated.
    pub fn len(&self) -> (r: usize)
        ensures
            r == self.contents().len(),
    {
        self.buffer.len()
    }

    /// Whether no elements are allocated.
    pub fn is_empty(&self) -> (r: bool)
        ensures
            r == (self.contents().len() == 0),
    {
        self.buffer.is_empty()
    }

    /// The allocated region, readable.
    pub fn as_slice(&self) -> (r: &[T])
        ensures
            r@ == self.contents(),
    {
        self.buffer.as_slice()
    }

    /// The allocated region, writable. Writing through it is a mutation, so
    /// the block becomes dirty; nothing is persisted until an explicit sync.
    pub fn as_slice_mut(&mut self) -> (r: &mut [T])
        ensures
            r@ == old(self).contents(),
            final(self).contents() == final(r)@,
            final(self).dirty_flag(),
            final(self).file_path() == old(self).file_path(),
    {
        self.dirty = true;
        self.buffer.as_mut_slice()
    }

    /// The value at `index`, `None` when out of range.
    pub fn get(&self, index: usize) -> (r: Option<T>) where T: Copy
        ensures
            r == if index < self.contents().len() {
                Some(self.contents()[index as int])
            } else {
                None::<T>
            },
    {
        if index < self.buffer.len() {
            Some(self.buffer[index])
        } else {
            None
        }
    }

    /// Writes `value` at `index`; an out-of-range index reports `None` and
    /// leaves the block untouched rather than failing the whole operation.
    pub fn set(&mut self, index: usize, value: T) -> (r: Option<()>)
        ensures
            index < old(self).contents().len() ==> r == Some(()) && final(self).contents() == old(self).contents().update(index as int, value) && final(self).dirty_flag() && final(self).file_path() == old(self).file_path(),
            index >= old(self).contents().len() ==> r is None && *final(self) == *old(self),
    {
        if index < self.buffer.len() {
            self.buffer[index] = value;
            self.dirty = true;
            Some(())
        } else {
            None
        }
    }

    /// Whether there are unsynced changes.
    pub fn is_dirty(&self) -> (r: bool)
        ensures
            r == self.dirty_flag(),
    {
        self.dirty
    }

    /// Records that the buffer has reached the file: the persistence glue
    /// calls this once a sync or flush has fully written the block out.
    pub fn mark_clean(&mut self)
        ensures
            final(self).contents() == old(self).contents(),
            final(self).file_path() == old(self).file_path(),
            !final(self).dirty_flag(),
    {
        self.dirty = false;
    }

    /// Grows the block by `addition` elements, each initialized to the
    /// element type's default value.
    pub fn grow(&mut self, addition: usize) -> (r: Result<(), Error>) where T: Default
        ensures
            r is Ok <==> old(self).can_grow(addition as int),
            r is Ok ==> final(self).contents().len() == old(self).contents().len() + addition
                && final(self).contents().subrange(0, old(self).contents().len() as int) == old(self).contents() && (forall|i: int|
                old(self).contents().len() <= i < final(self).contents().len() ==> defaulted(
                    #[trigger] final(self).contents()[i],
                )) && final(self).dirty_flag() && final(self).file_path() == old(self).file_path(),
            r matches Err(e) ==> e is CapacityOverflow && *final(self) == *old(self),
    {
        match grow_plan::<T>(self.buffer.len(), addition) {
            Err(e) => Err(e),
            Ok(_plan) => {
                let mut fresh = defaulted_region(addition);
                self.buffer.append(&mut fresh);
                self.dirty = true;
                proof {
                    assert(final(self).contents().subrange(0, old(self).contents().len() as int)
                        =~= old(self).contents());
                }
                Ok(())
            },
        }
    }

    /// Grows the block by `addition` elements, each initialized to the
    /// all-default value standing in for all-zero bytes.
    pub fn grow_zeroed(&mut self, addition: usize) -> (r: Result<(), Error>) where T: Default
        ensures
            r is Ok <==> old(self).can_grow(addition as int),
            r is Ok ==> final(self).contents().len() == old(self).contents().len() + addition
                && final(self).contents().subrange(0, old(self).contents().len() as int) == old(self).contents() && (forall|i: int|
                old(self).contents().len() <= i < final(self).contents().len() ==> defaulted(
                    #[trigger] final(self).contents()[i],
                )) && final(self).dirty_flag() && final(self).file_path() == old(self).file_path(),
            r matches Err(e) ==> e is CapacityOverflow && *final(self) == *old(self),
    {
        self.grow(addition)
    }

    /// Grows the block by `addition` elements, each initialized to a clone of
    /// `value`.
    pub fn grow_filled(&mut self, addition: usize, value: T) -> (r: Result<(), Error>) where
        T: Clone

        ensures
            r is Ok <==> old(self).can_grow(addition as int),
            r is Ok ==> final(self).contents().len() == old(self).contents().len() + addition
                && final(self).contents().subrange(0, old(self).contents().len() as int) == old(self).contents() && (forall|i: int|
                old(self).contents().len() <= i < final(self).contents().len() ==> cloned(
                    value,
                    #[trigger] final(self).contents()[i],
                )) && final(self).dirty_flag() && final(self).file_path() == old(self).file_path(),
            r matches Err(e) ==> e is CapacityOverflow && *final(self) == *old(self),
    {
        match grow_plan::<T>(self.buffer.len(), addition) {
            Err(e) => Err(e),
            Ok(_plan) => {
                let mut fresh = filled_region(addition, value);
                self.buffer.append(&mut fresh);
                self.dirty = true;
                proof {
                    assert(final(self).contents().subrange(0, old(self).contents().len() as int)
                        =~= old(self).contents());
                }
                Ok(())
            },
        }
    }

    /// Grows the block by `addition` elements, where the slot at offset `i`
    /// of the new region is initialized to `f(i)`, in order.
    pub fn grow_with<F: Fn(usize) -> T>(&mut self, addition: usize, f: F) -> (r: Result<
        (),
        Error,
    >)
        requires
            forall|i: usize| i < addition ==> call_requires(f, (i,)),
        ensures
            r is Ok <==> old(self).can_grow(addition as int),
            r is Ok ==> final(self).contents().len() == old(self).contents().len() + addition
                && final(self).contents().subrange(0, old(self).contents().len() as int) == old(self).contents() && (forall|i: int|
                old(self).contents().len() <= i < final(self).contents().len() ==> call_ensures(
                    f,
                    ((i - old(self).contents().len()) as usize,),
                    #[trigger] final(self).contents()[i],
                )) && final(self).dirty_flag() && final(self).file_path() == old(self).file_path(),
            r matches Err(e) ==> e is CapacityOverflow && *final(self) == *old(self),
    {
        match grow_plan::<T>(self.buffer.len(), addition) {
            Err(e) => Err(e),
            Ok(_plan) => {
                let mut fresh = region_with(addition, f);
                self.buffer.append(&mut fresh);
                self.dirty = true;
                proof {
                    assert(final(self).contents().subrange(0, old(self).contents().len() as int)
                        =~= old(self).contents());
                }
                Ok(())
            },
        }
    }

    /// Grows the block by `src.len()` elements, cloned from `src` in order.
    pub fn grow_from_slice(&mut self, src: &[T]) -> (r: Result<(), Error>) where T: Clone
        ensures
            r is Ok <==> old(self).can_grow(src@.len() as int),
            r is Ok ==> final(self).contents().len() == old(self).contents().len() + src@.len()
                && final(self).contents().subrange(0, old(self).contents().len() as int) == old(self).contents() && (forall|i: int|
                old(self).contents().len() <= i < final(self).contents().len() ==> cloned(
                    src@[i - old(self).contents().len()],
                    #[trigger] final(self).contents()[i],
                )) && final(self).dirty_flag() && final(self).file_path() == old(self).file_path(),
            r matches Err(e) ==> e is CapacityOverflow && *final(self) == *old(self),
    {
        match grow_plan::<T>(self.buffer.len(), src.len()) {
            Err(e) => Err(e),
            Ok(_plan) => {
                let mut fresh = cloned_region(src);
                self.buffer.append(&mut fresh);
                self.dirty = true;
                proof {
                    assert(final(self).contents().subrange(0, old(self).contents().len() as int)
                        =~= old(self).contents());
                }
                Ok(())
            },
        }
    }

    /// Shrinks the block by its trailing `count` elements; shrinking by more
    /// than the block holds empties it.
    pub fn shrink(&mut self, count: usize) -> (r: Result<(), Error>)
        ensures
            r is Ok,
            final(self).contents() == if count <= old(self).contents().len() {
                old(self).contents().subrange(0, old(self).contents().len() - count)
            } else {
                Seq::<T>::empty()
            },
            final(self).dirty_flag(),
            final(self).file_path() == old(self).file_path(),
    {
        let new_len = if count <= self.buffer.len() {
            self.buffer.len() - count
        } else {
            0
        };
        self.buffer.truncate(new_len);
        self.dirty = true;
        proof {
            if count > old(self).contents().len() {
                assert(final(self).contents() =~= Seq::<T>::empty());
            }
        }
        Ok(())
    }
}

} // verus!
