//! Laws of the arena, stated over the model of `crate::model` and proved
//! once and for all.  Each executable operation's contract says that it
//! performs the matching model transition, so everything proved here about
//! chains of transitions holds of chains of the real calls.

use vstd::prelude::*;

use crate::ecs::{DeallocationError, GenerationalIndex, GenerationalIndexError};
use crate::model::{
    inv, in_free, lemma_allocate_preserves_inv, lemma_deallocate_preserves_inv, spec_allocate,
    spec_deallocate, spec_entry_check, spec_get, spec_is_live, spec_set, AllocatorModel,
};

verus! {

/// One operation against the allocator, for reasoning about whole runs.
pub enum ArenaOp {
    Allocate,
    Deallocate(GenerationalIndex),
}

/// A single operation applied to a model state, together with the handles it
/// hands out: one for a successful allocation, none otherwise.
pub open spec fn step_op(m: AllocatorModel, op: ArenaOp) -> (AllocatorModel, Seq<
    GenerationalIndex,
>) {
    match op {
        ArenaOp::Allocate => {
            let (m1, r) = spec_allocate(m);
            match r {
                Ok(h) => (m1, seq![h]),
                Err(_) => (m1, Seq::empty()),
            }
        },
        ArenaOp::Deallocate(h) => (spec_deallocate(m, h).0, Seq::empty()),
    }
}

/// Runs a sequence of operations from a starting state, collecting the
/// handles that the successful allocations hand out, in order.
pub open spec fn run_ops(m: AllocatorModel, ops: Seq<ArenaOp>) -> (AllocatorModel, Seq<
    GenerationalIndex,
>)
    decreases ops.len(),
{
    if ops.len() == 0 {
        (m, Seq::empty())
    } else {
        let (m1, issued1) = step_op(m, ops[0]);
        let (m2, issued2) = run_ops(m1, ops.drop_first());
        (m2, issued1 + issued2)
    }
}

/// Any run preserves the invariant; the global counter never decreases and
/// gains at most one per operation; every handle a run hands out is stamped
/// strictly after the starting counter and no later than the final one; and
/// the handles come out with strictly increasing generations.
pub proof fn lemma_run_ops_invariants(m: AllocatorModel, ops: Seq<ArenaOp>)
    requires
        inv(m),
        m.counter + ops.len() <= u32::MAX,
    ensures
        ({
            let (mf, issued) = run_ops(m, ops);
            &&& inv(mf)
            &&& m.counter <= mf.counter <= m.counter + ops.len()
            &&& forall|i: int|
                0 <= i < issued.len() ==> m.counter < (#[trigger] issued[i]).generation
                    <= mf.counter
            &&& forall|i: int, j: int|
                0 <= i < j < issued.len() ==> issued[i].generation < issued[j].generation
        }),
    decreases ops.len(),
{
    if ops.len() > 0 {
        let (m1, issued1) = step_op(m, ops[0]);
        match ops[0] {
            ArenaOp::Allocate => lemma_allocate_preserves_inv(m),
            ArenaOp::Deallocate(h) => lemma_deallocate_preserves_inv(m, h),
        }
        lemma_run_ops_invariants(m1, ops.drop_first());
    }
}

/// Uniqueness: over any sequence of operations — allocations interleaved
/// with arbitrary deallocations — the handles handed out by the successful
/// allocations are pairwise distinct, even when two of them reuse the same
/// slot index.
pub proof fn lemma_issued_handles_distinct(m: AllocatorModel, ops: Seq<ArenaOp>)
    requires
        inv(m),
        m.counter + ops.len() <= u32::MAX,
    ensures
        ({
            let issued = run_ops(m, ops).1;
            forall|i: int, j: int| 0 <= i < j < issued.len() ==> issued[i] != issued[j]
        }),
{
    lemma_run_ops_invariants(m, ops);
}

/// Exhaustion happens exactly at capacity: allocation fails precisely when
/// every slot of the arena is live.
pub proof fn lemma_exhausted_iff_all_live(m: AllocatorModel)
    requires
        inv(m),
    ensures
        spec_allocate(m).1 is Err <==> (forall|i: int|
            0 <= i < m.slots.len() ==> (#[trigger] m.slots[i]).is_live),
{
    if m.free.len() > 0 {
        let i = m.free[0] as int;
        assert(in_free(m, i));
        assert(!m.slots[i].is_live);
    }
}

/// Capacity bound: with no deallocations in the run, each successful
/// allocation consumes one free-list entry, so of `n` straight allocations
/// exactly `min(n, free.len())` succeed, and once the free list has run out
/// every further allocation fails.
pub proof fn lemma_capacity_bound(m: AllocatorModel, ops: Seq<ArenaOp>)
    requires
        forall|k: int| 0 <= k < ops.len() ==> ops[k] == ArenaOp::Allocate,
    ensures
        ({
            let (mf, issued) = run_ops(m, ops);
            &&& issued.len() == if ops.len() <= m.free.len() {
                ops.len()
            } else {
                m.free.len()
            }
            &&& mf.free.len() == m.free.len() - issued.len()
            &&& ops.len() >= m.free.len() ==> spec_allocate(mf).1 is Err
        }),
    decreases ops.len(),
{
    if ops.len() > 0 {
        let (m1, issued1) = step_op(m, ops[0]);
        lemma_capacity_bound(m1, ops.drop_first());
    }
}

/// A deallocation always makes room: after any successful deallocate the
/// free list is nonempty, so the very next allocate succeeds.
pub proof fn lemma_room_after_deallocate(m: AllocatorModel, h: GenerationalIndex)
    requires
        spec_deallocate(m, h).1 is Ok,
    ensures
        spec_allocate(spec_deallocate(m, h).0).1 is Ok,
{
}

/// Double-free detection: once a handle has been deallocated, deallocating
/// the very same handle again is refused as `AlreadyDeallocated` — not as a
/// bounds or mismatch error — and leaves the arena untouched.
pub proof fn lemma_double_free_detected(m: AllocatorModel, h: GenerationalIndex)
    requires
        spec_deallocate(m, h).1 is Ok,
    ensures
        ({
            let m1 = spec_deallocate(m, h).0;
            &&& spec_deallocate(m1, h).1 == Err::<(), DeallocationError>(
                DeallocationError::AlreadyDeallocated,
            )
            &&& spec_deallocate(m1, h).0 == m1
        }),
{
}

/// Stale-handle rejection: deallocate a valid handle, then allocate again.
/// The freed slot is the one reused, and the fresh handle carries a newer
/// generation, so every operation through the old handle — deallocate or a
/// store access — is refused as `GenerationMismatch` (not as
/// `AlreadyDeallocated`), while the same operations through the fresh handle
/// succeed.  `store_len` is the length of any component store covering the
/// slot.
pub proof fn lemma_stale_handle_rejected(
    m: AllocatorModel,
    h: GenerationalIndex,
    store_len: int,
)
    requires
        inv(m),
        m.counter < u32::MAX,
        spec_deallocate(m, h).1 is Ok,
        h.index < store_len,
    ensures
        ({
            let m1 = spec_deallocate(m, h).0;
            let (m2, r2) = spec_allocate(m1);
            &&& r2 is Ok
            &&& r2->Ok_0.index == h.index
            &&& r2->Ok_0.generation > h.generation
            &&& spec_deallocate(m2, h).1 == Err::<(), DeallocationError>(
                DeallocationError::GenerationMismatch,
            )
            &&& spec_entry_check(store_len, m2, h) == Err::<(), GenerationalIndexError>(
                GenerationalIndexError::GenerationMismatch,
            )
            &&& spec_deallocate(m2, r2->Ok_0).1 is Ok
            &&& spec_entry_check(store_len, m2, r2->Ok_0) is Ok
        }),
{
    let m1 = spec_deallocate(m, h).0;
    assert(m1.free.last() == h.index);
    assert(m.slots[h.index as int].generation <= m.counter);
}

/// Round trip: for any live, current handle and any payload, `set` succeeds
/// and a `get` through the same handle returns exactly the stored value —
/// in every component store independently.
pub proof fn lemma_set_then_get<T>(s: Seq<T>, m: AllocatorModel, h: GenerationalIndex, v: T)
    requires
        spec_entry_check(s.len() as int, m, h) is Ok,
    ensures
        ({
            let (s2, r) = spec_set(s, m, h, v);
            &&& r is Ok
            &&& spec_get(s2, m, h) == Ok::<T, GenerationalIndexError>(v)
        }),
{
    let (s2, r) = spec_set(s, m, h, v);
    assert(s2.len() == s.len());
    assert(s2[h.index as int] == v);
}

/// Out-of-bounds rejection: a handle whose slot index is not a slot of the
/// arena fails every operation with the bounds error, whatever its
/// generation, and no operation changes any state.  `store_len` is the
/// length of any component store no larger than the arena.
pub proof fn lemma_out_of_bounds_rejected(
    m: AllocatorModel,
    h: GenerationalIndex,
    store_len: int,
)
    requires
        h.index as int >= m.slots.len(),
        store_len <= m.slots.len(),
    ensures
        spec_deallocate(m, h).1 == Err::<(), DeallocationError>(DeallocationError::IndexOOB),
        spec_deallocate(m, h).0 == m,
        spec_is_live(m, h) == Err::<bool, GenerationalIndexError>(GenerationalIndexError::IndexOOB),
        spec_entry_check(store_len, m, h) == Err::<(), GenerationalIndexError>(
            GenerationalIndexError::IndexOOB,
        ),
{
}

} // verus!
