//! Protocol-wide laws, stated over the same sequence model that the
//! backends' contracts use.

use vstd::prelude::*;

verus! {

/// Round trip. Any grow publishes `before + grown-region`; by the grow
/// contracts the region has length `n` and each of its slots holds a clone of
/// the fill value. This law says: shrinking by `n` afterwards — which by the
/// shrink contract keeps exactly the first `len - n` elements — restores the
/// contents to `before`; and whenever cloning the fill value can only yield
/// the value itself (as for the integer and other `Copy` elements), the grown
/// region is exactly `n` copies of it.
pub proof fn lemma_grow_filled_round_trip<T: Clone>(before: Seq<T>, grown: Seq<T>, v: T, n: nat)
    requires
        grown.len() == before.len() + n,
        grown.subrange(0, before.len() as int) == before,
        forall|i: int| before.len() <= i < grown.len() ==> cloned(v, #[trigger] grown[i]),
    ensures
        grown.subrange(0, grown.len() - n) == before,
        (forall|e: T| cloned(v, e) ==> e == v) ==> grown == before + Seq::new(n, |i: int| v),
{
    if forall|e: T| cloned(v, e) ==> e == v {
        assert forall|i: int| 0 <= i < grown.len() implies grown[i] == (before + Seq::new(
            n,
            |j: int| v,
        ))[i] by {
            if i < before.len() {
                assert(grown.subrange(0, before.len() as int)[i] == grown[i]);
            } else {
                assert(cloned(v, grown[i]));
            }
        }
        assert(grown =~= before + Seq::new(n, |i: int| v));
    }
}

/// One capacity-changing step in a block's history: every successful protocol
/// operation changes the element count this way and no other.
pub enum CapOp {
    /// A successful grow by this many elements.
    Grow(int),
    /// A successful shrink by this many elements.
    Shrink(int),
}

/// What one step is allowed to be at a given length: grows are by a
/// non-negative amount, shrinks never take more than the block holds.
pub open spec fn op_allowed(len: int, op: CapOp) -> bool {
    match op {
        CapOp::Grow(n) => n >= 0,
        CapOp::Shrink(n) => 0 <= n <= len,
    }
}

/// The length after one step.
pub open spec fn len_after(len: int, op: CapOp) -> int {
    match op {
        CapOp::Grow(n) => len + n,
        CapOp::Shrink(n) => len - n,
    }
}

/// Whether a history of steps is allowed, each at the length the previous
/// ones produced.
pub open spec fn ops_allowed(len: int, ops: Seq<CapOp>) -> bool
    decreases ops.len(),
{
    ops.len() == 0 || (op_allowed(len, ops[0]) && ops_allowed(len_after(len, ops[0]), ops.skip(1)))
}

/// The length after a whole history of steps.
pub open spec fn len_after_all(len: int, ops: Seq<CapOp>) -> int
    decreases ops.len(),
{
    if ops.len() == 0 {
        len
    } else {
        len_after_all(len_after(len, ops[0]), ops.skip(1))
    }
}

/// The sum of all grow amounts in a history.
pub open spec fn grow_sum(ops: Seq<CapOp>) -> int
    decreases ops.len(),
{
    if ops.len() == 0 {
        0
    } else {
        (match ops[0] {
            CapOp::Grow(n) => n,
            CapOp::Shrink(_) => 0,
        }) + grow_sum(ops.skip(1))
    }
}

/// The sum of all shrink amounts in a history.
pub open spec fn shrink_sum(ops: Seq<CapOp>) -> int
    decreases ops.len(),
{
    if ops.len() == 0 {
        0
    } else {
        (match ops[0] {
            CapOp::Grow(_) => 0,
            CapOp::Shrink(n) => n,
        }) + shrink_sum(ops.skip(1))
    }
}

/// Capacity accounting. Every successful grow adds its amount to the element
/// count and every successful shrink subtracts its amount — that is what the
/// backends' contracts publish — so after any allowed history the count
/// equals the starting count plus all grow amounts minus all shrink amounts,
/// and never drops below zero. In particular, from an empty block the count
/// is exactly the sum of the grows minus the sum of the shrinks.
pub proof fn lemma_capacity_accounting(len: int, ops: Seq<CapOp>)
    requires
        len >= 0,
        ops_allowed(len, ops),
    ensures
        len_after_all(len, ops) == len + grow_sum(ops) - shrink_sum(ops),
        len_after_all(len, ops) >= 0,
    decreases ops.len(),
{
    if ops.len() > 0 {
        lemma_capacity_accounting(len_after(len, ops[0]), ops.skip(1));
    }
}

} // verus!
