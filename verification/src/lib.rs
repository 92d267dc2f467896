//! Growable raw-memory blocks with pluggable backing stores.
//!
//! A block owns a single contiguous run of typed elements. Every backend
//! follows the same growth protocol: compute the new capacity, resize the
//! backing store, initialize the newly exposed region, and only then publish
//! the new capacity. The backends differ only in where the bytes live: the
//! process heap ([`Alloc`], [`Global`], [`System`]), a caller-supplied fixed
//! buffer ([`PreAlloc`]), or an in-memory buffer mirrored to a file through
//! explicit read/write calls ([`AsyncFileMem`]).

mod async_mem;
mod base;
pub mod codec;
mod erased;
mod global;
mod heap;
pub mod laws;
mod prealloc;
pub mod raw_mem;
mod raw_place;

pub use async_mem::AsyncFileMem;
pub use base::Base;
pub use erased::ErasedMem;
pub use global::{Global, System};
pub use heap::Alloc;
pub use prealloc::PreAlloc;
pub use raw_mem::{Error, RawMem};
pub use raw_place::RawPlace;
