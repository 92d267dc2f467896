//! The shared growth protocol: the error model, the capacity and layout
//! arithmetic that every backend performs before resizing its backing store,
//! and the [`RawMem`] contract itself.

use vstd::prelude::*;
use vstd::string::*;

verus! {

/// The size/alignment pair describing a byte region sized for a given
/// element count.
#[derive(Clone, Copy, Debug, PartialEq, Eq, Structural)]
pub struct BlockLayout {
    /// Total size of the region in bytes.
    pub size: usize,
    /// Required alignment of the region.
    pub align: usize,
}

/// Failure of a grow or shrink operation, shared by all backends.
#[derive(Debug)]
pub enum Error {
    /// The requested capacity, or its byte-layout computation, exceeds the
    /// platform's limits.
    CapacityOverflow,
    /// A fixed-buffer backend cannot satisfy the request: only `available`
    /// elements fit, `to_alloc` were asked for.
    OverAlloc { available: usize, to_alloc: usize },
    /// The backing store's resize primitive refused the request.
    AllocError { layout: BlockLayout },
    /// File-level I/O failure, preserved without reinterpretation.
    System(std::io::Error),
}

/// Relies on `std::io::Error` as an opaque value: the library stores and
/// hands it back without reading it.
#[verifier::external_type_specification]
#[verifier::external_body]
pub struct ExIoError(std::io::Error);

/// Relies on the `Display` impl of `std::io::Error`: renders the error's
/// own message.
#[verifier::external_body]
fn io_error_text(e: &std::io::Error) -> String {
    format!("{}", e)
}

/// Decimal digit as a string slice.
fn digit_str(d: usize) -> (r: &'static str)
    requires
        d < 10,
{
    match d {
        0 => "0",
        1 => "1",
        2 => "2",
        3 => "3",
        4 => "4",
        5 => "5",
        6 => "6",
        7 => "7",
        8 => "8",
        _ => "9",
    }
}

/// Appends the decimal rendering of `n` to `s`.
fn push_usize(s: &mut String, n: usize)
    decreases n,
{
    if n >= 10 {
        push_usize(s, n / 10);
    }
    s.append(digit_str(n % 10));
}

impl Error {
    /// Human-readable description of the failure.
    pub fn message(&self) -> String {
        match self {
            Error::CapacityOverflow => "exceeding the capacity maximum".to_owned(),
            Error::OverAlloc { available, to_alloc } => {
                let mut s = String::from_str("cannot allocate ");
                push_usize(&mut s, *to_alloc);
                s.append(" - available only ");
                push_usize(&mut s, *available);
                s
            },
            Error::AllocError { layout } => {
                let mut s = String::from_str("memory allocation of ");
                push_usize(&mut s, layout.size);
                s.append(" bytes (alignment ");
                push_usize(&mut s, layout.align);
                s.append(") failed");
                s
            },
            Error::System(e) => io_error_text(e),
        }
    }
}

/// Whether a block of `cap` elements of type `T` can exist at all: the
/// element count must be addressable and the byte size of the whole block
/// must not exceed the platform's maximum allocation size.
pub open spec fn capacity_fits<T>(cap: int) -> bool {
    cap <= usize::MAX && cap * vstd::layout::size_of::<T>() <= isize::MAX as int
}

/// The outcome of the capacity computation that precedes every resize of a
/// backing store.
#[derive(Clone, Copy, Debug)]
pub struct GrowPlan {
    /// Element count after the grow.
    pub new_capacity: usize,
    /// Byte size of the whole block after the grow.
    pub new_bytes: usize,
}

/// Computes the capacity and byte size a block of `T` has after growing from
/// `current` elements by `addition`, failing with [`Error::CapacityOverflow`]
/// exactly when the result would exceed the platform's limits.
pub fn grow_plan<T>(current: usize, addition: usize) -> (r: Result<GrowPlan, Error>)
    ensures
        match r {
            Ok(p) => capacity_fits::<T>(current + addition) && p.new_capacity == current
                + addition && p.new_bytes == (current + addition) * vstd::layout::size_of::<T>(),
            Err(e) => !capacity_fits::<T>(current + addition) && e is CapacityOverflow,
        },
{
    let elem: usize = core::mem::size_of::<T>();
    match current.checked_add(addition) {
        None => Err(Error::CapacityOverflow),
        Some(cap) => match cap.checked_mul(elem) {
            None => Err(Error::CapacityOverflow),
            Some(bytes) => {
                if bytes > (isize::MAX as usize) {
                    Err(Error::CapacityOverflow)
                } else {
                    Ok(GrowPlan { new_capacity: cap, new_bytes: bytes })
                }
            },
        },
    }
}

/// Computes the capacity and byte size a block of `T` has after shrinking
/// from `current` elements by `count`.
pub fn shrink_plan<T>(current: usize, count: usize) -> (r: GrowPlan)
    requires
        count <= current,
        capacity_fits::<T>(current as int),
    ensures
        r.new_capacity == current - count,
        r.new_bytes == (current - count) * vstd::layout::size_of::<T>(),
{
    let elem: usize = core::mem::size_of::<T>();
    let cap = current - count;
    assert(cap * vstd::layout::size_of::<T>() <= current * vstd::layout::size_of::<T>())
        by (nonlinear_arith)
        requires
            cap <= current,
    ;
    GrowPlan { new_capacity: cap, new_bytes: cap * elem }
}

/// `e` could be the result of `<T as Default>::default()`.
pub open spec fn defaulted<T: Default>(e: T) -> bool {
    call_ensures(<T as Default>::default, (), e)
}

/// Overwrites every slot of `dst` with a clone of `value`.
pub fn fill<T: Clone>(dst: &mut Vec<T>, value: T)
    ensures
        final(dst).len() == old(dst).len(),
        forall|i: int| 0 <= i < final(dst).len() ==> cloned(value, #[trigger] final(dst)@[i]),
{
    let n = dst.len();
    let mut i: usize = 0;
    while i < n
        invariant
            n == dst.len(),
            i <= n,
            forall|j: int| 0 <= j < i ==> cloned(value, #[trigger] dst@[j]),
        decreases n - i,
    {
        dst[i] = value.clone();
        i += 1;
    }
}

/// Overwrites the slot at `i` of `dst` with `f(i)`, for every `i`.
pub fn fill_with<T, F: Fn(usize) -> T>(dst: &mut Vec<T>, f: F)
    requires
        forall|i: usize| i < old(dst).len() ==> call_requires(f, (i,)),
    ensures
        final(dst).len() == old(dst).len(),
        forall|i: int|
            0 <= i < final(dst).len() ==> call_ensures(f, (i as usize,), #[trigger] final(dst)@[i]),
{
    let n = dst.len();
    let mut i: usize = 0;
    while i < n
        invariant
            n == dst.len(),
            i <= n,
            forall|j: usize| j < n ==> call_requires(f, (j,)),
            forall|j: int| 0 <= j < i ==> call_ensures(f, (j as usize,), #[trigger] dst@[j]),
        decreases n - i,
    {
        dst[i] = f(i);
        i += 1;
    }
}

/// A fresh region of `n` slots, each initialized to a clone of `value`.
pub fn filled_region<T: Clone>(n: usize, value: T) -> (r: Vec<T>)
    ensures
        r.len() == n,
        forall|i: int| 0 <= i < n ==> cloned(value, #[trigger] r@[i]),
{
    let mut r: Vec<T> = vec![value; n];
    r
}

/// A fresh region of `n` slots where slot `i` is initialized to `f(i)`,
/// in order.
pub fn region_with<T, F: Fn(usize) -> T>(n: usize, f: F) -> (r: Vec<T>)
    requires
        forall|i: usize| i < n ==> call_requires(f, (i,)),
    ensures
        r.len() == n,
        forall|i: int| 0 <= i < n ==> call_ensures(f, (i as usize,), #[trigger] r@[i]),
{
    let mut r: Vec<T> = Vec::new();
    let mut i: usize = 0;
    while i < n
        invariant
            i <= n,
            r.len() == i,
            forall|j: usize| j < n ==> call_requires(f, (j,)),
            forall|j: int| 0 <= j < i ==> call_ensures(f, (j as usize,), #[trigger] r@[j]),
        decreases n - i,
    {
        r.push(f(i));
        i += 1;
    }
    r
}

/// A fresh region of `n` slots, each initialized to the all-default value of
/// the element type. This stands in for zero-fill: the caller's obligation
/// that "all bytes zero" is a valid element becomes the choice of a `Default`
/// impl that returns that value, which holds for the integer types.
pub fn defaulted_region<T: Default>(n: usize) -> (r: Vec<T>)
    ensures
        r.len() == n,
        forall|i: int| 0 <= i < n ==> defaulted(#[trigger] r@[i]),
{
    let mut r: Vec<T> = Vec::new();
    let mut i: usize = 0;
    while i < n
        invariant
            i <= n,
            r.len() == i,
            forall|j: int| 0 <= j < i ==> defaulted(#[trigger] r@[j]),
        decreases n - i,
    {
        r.push(T::default());
        i += 1;
    }
    r
}

/// A fresh region holding a clone of every element of `src`, in order.
pub fn cloned_region<T: Clone>(src: &[T]) -> (r: Vec<T>)
    ensures
        r.len() == src.len(),
        forall|i: int| 0 <= i < src.len() ==> cloned(src[i], #[trigger] r@[i]),
{
    let mut r: Vec<T> = Vec::new();
    r.extend_from_slice(src);
    r
}

/// The uniform growth and shrink protocol over a contiguous block of typed
/// elements.
///
/// A grow computes the new capacity, resizes the backing store in the
/// backend-specific way, initializes exactly the newly added region, and only
/// then publishes the new capacity: on failure the block is unchanged. A
/// shrink destroys the trailing elements and then releases the corresponding
/// part of the backing store.
pub trait RawMem: Sized {
    type Item;

    /// The backend's internal well-formedness: constructors establish it and
    /// every operation preserves it.
    spec fn wf(&self) -> bool;

    /// The elements the block currently owns, in order.
    spec fn contents(&self) -> Seq<Self::Item>;

    /// Upper bound on the total capacity obtainable from the backing store,
    /// `None` when it is unbounded.
    spec fn limit(&self) -> Option<int>;

    /// Whether a grow by `addition` elements succeeds.
    spec fn can_grow(&self, addition: int) -> bool;

    /// The error a grow by `addition` reports when it cannot proceed.
    spec fn grow_refusal(&self, addition: int) -> Error;

    /// The current `[0, capacity)` region.
    fn allocated(&self) -> (r: &[Self::Item])
        requires
            self.wf(),
        ensures
            r@ == self.contents(),
    ;

    /// The current `[0, capacity)` region, writable. The caller can only
    /// write elements through the returned slice, never change its length;
    /// the block's contents afterwards are whatever was written.
    fn allocated_mut(&mut self) -> (r: &mut [Self::Item])
        requires
            old(self).wf(),
        ensures
            r@ == old(self).contents(),
            final(r)@.len() == r@.len() ==> final(self).wf() && final(self).contents()
                == final(r)@ && final(self).limit() == old(self).limit(),
    ;

    /// Grows the block by `addition` elements, each initialized to a clone of
    /// `value`.
    fn grow_filled(&mut self, addition: usize, value: Self::Item) -> (r: Result<(), Error>) where
        Self::Item: Clone

        requires
            old(self).wf(),
        ensures
            final(self).wf(),
            r is Ok <==> old(self).can_grow(addition as int),
            r is Ok ==> final(self).contents().len() == old(self).contents().len() + addition
                && final(self).contents().subrange(0, old(self).contents().len() as int) == old(
                self,
            ).contents() && (forall|i: int|
                old(self).contents().len() <= i < final(self).contents().len() ==> cloned(
                    value,
                    #[trigger] final(self).contents()[i],
                )) && final(self).limit() == old(self).limit(),
            r matches Err(e) ==> e == old(self).grow_refusal(addition as int) && *final(self)
                == *old(self),
    ;

    /// Grows the block by `addition` elements, where the slot at offset `i`
    /// of the new region is initialized to `f(i)`, in order.
    fn grow_with<F: Fn(usize) -> Self::Item>(&mut self, addition: usize, f: F) -> (r: Result<
        (),
        Error,
    >)
        requires
            old(self).wf(),
            forall|i: usize| i < addition ==> call_requires(f, (i,)),
        ensures
            final(self).wf(),
            r is Ok <==> old(self).can_grow(addition as int),
            r is Ok ==> final(self).contents().len() == old(self).contents().len() + addition
                && final(self).contents().subrange(0, old(self).contents().len() as int) == old(
                self,
            ).contents() && (forall|i: int|
                old(self).contents().len() <= i < final(self).contents().len() ==> call_ensures(
                    f,
                    ((i - old(self).contents().len()) as usize,),
                    #[trigger] final(self).contents()[i],
                )) && final(self).limit() == old(self).limit(),
            r matches Err(e) ==> e == old(self).grow_refusal(addition as int) && *final(self)
                == *old(self),
    ;

    /// Grows the block by `addition` elements, each initialized to the
    /// all-default value of the element type.
    fn grow_zeroed(&mut self, addition: usize) -> (r: Result<(), Error>) where
        Self::Item: Default

        requires
            old(self).wf(),
        ensures
            final(self).wf(),
            r is Ok <==> old(self).can_grow(addition as int),
            r is Ok ==> final(self).contents().len() == old(self).contents().len() + addition
                && final(self).contents().subrange(0, old(self).contents().len() as int) == old(
                self,
            ).contents() && (forall|i: int|
                old(self).contents().len() <= i < final(self).contents().len() ==> defaulted(
                    #[trigger] final(self).contents()[i],
                )) && final(self).limit() == old(self).limit(),
            r matches Err(e) ==> e == old(self).grow_refusal(addition as int) && *final(self)
                == *old(self),
    ;

    /// Grows the block by `src.len()` elements, cloned from `src` in order.
    fn grow_from_slice(&mut self, src: &[Self::Item]) -> (r: Result<(), Error>) where
        Self::Item: Clone

        requires
            old(self).wf(),
        ensures
            final(self).wf(),
            r is Ok <==> old(self).can_grow(src@.len() as int),
            r is Ok ==> final(self).contents().len() == old(self).contents().len() + src@.len()
                && final(self).contents().subrange(0, old(self).contents().len() as int) == old(
                self,
            ).contents() && (forall|i: int|
                old(self).contents().len() <= i < final(self).contents().len() ==> cloned(
                    src@[i - old(self).contents().len()],
                    #[trigger] final(self).contents()[i],
                )) && final(self).limit() == old(self).limit(),
            r matches Err(e) ==> e == old(self).grow_refusal(src@.len() as int) && *final(self)
                == *old(self),
    ;

    /// Shrinks the block by its trailing `count` elements, destroying them.
    /// Asking to shrink by more than the block holds is a caller error, ruled
    /// out by precondition rather than reported.
    fn shrink(&mut self, count: usize) -> (r: Result<(), Error>)
        requires
            old(self).wf(),
            count <= old(self).contents().len(),
        ensures
            final(self).wf(),
            r is Ok,
            final(self).contents() == old(self).contents().subrange(
                0,
                old(self).contents().len() - count,
            ),
            final(self).limit() == old(self).limit(),
    ;

    /// An upper bound on how much more capacity is obtainable: `None` when
    /// the backing store is unbounded, the exact remaining element count when
    /// it is fixed.
    fn size_hint(&self) -> (r: Option<usize>)
        requires
            self.wf(),
        ensures
            match self.limit() {
                None => r is None,
                Some(l) => r == Some((l - self.contents().len()) as usize),
            },
    ;
}

} // verus!
