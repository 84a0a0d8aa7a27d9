//! The mathematical model of the arena: a snapshot type for the allocator's
//! state, the transition each operation performs on it, and the allocator's
//! invariant together with its preservation lemmas.

use vstd::prelude::*;

use crate::ecs::{
    AllocatorEntry, AllocatorOutOfMemory, DeallocationError, GenerationalIndex,
    GenerationalIndexError,
};

verus! {

/// A snapshot of an allocator: the slot table, the free list and the global
/// generation counter, as pure mathematical values.
#[verifier::ext_equal]
pub struct AllocatorModel {
    pub slots: Seq<AllocatorEntry>,
    pub free: Seq<u16>,
    pub counter: u32,
}

/// Whether slot `i` occurs somewhere in the sequence `free`.
pub open spec fn listed(free: Seq<u16>, i: int) -> bool {
    exists|k: int| 0 <= k < free.len() && free[k] as int == i
}

/// Whether slot `i` occurs somewhere on the free list.
pub open spec fn in_free(m: AllocatorModel, i: int) -> bool {
    listed(m.free, i)
}

/// The allocator's invariant:
/// - every free-list entry names a real slot, and no slot is listed twice;
/// - a slot is live exactly when it is not on the free list;
/// - no slot's generation is ahead of the global counter;
/// - no two live slots carry the same generation.
pub open spec fn inv(m: AllocatorModel) -> bool {
    &&& forall|k: int| 0 <= k < m.free.len() ==> ((#[trigger] m.free[k]) as int) < m.slots.len()
    &&& forall|k1: int, k2: int| 0 <= k1 < k2 < m.free.len() ==> m.free[k1] != m.free[k2]
    &&& forall|i: int|
        0 <= i < m.slots.len() ==> ((#[trigger] m.slots[i]).is_live <==> !in_free(m, i))
    &&& forall|i: int| 0 <= i < m.slots.len() ==> (#[trigger] m.slots[i]).generation <= m.counter
    &&& forall|i: int, j: int|
        0 <= i < m.slots.len() && 0 <= j < m.slots.len() && i != j && m.slots[i].is_live
            && m.slots[j].is_live ==> m.slots[i].generation != m.slots[j].generation
}

/// What `allocate` does to a state: pop the top of the free list, step the
/// global counter, stamp the slot live with the new generation, and hand out
/// the matching handle; with an empty free list the state is untouched and
/// the call fails.
pub open spec fn spec_allocate(m: AllocatorModel) -> (AllocatorModel, Result<
    GenerationalIndex,
    AllocatorOutOfMemory,
>) {
    if m.free.len() == 0 {
        (m, Err(AllocatorOutOfMemory))
    } else {
        let idx = m.free.last();
        let g = (m.counter + 1) as u32;
        (
            AllocatorModel {
                slots: m.slots.update(idx as int, AllocatorEntry { is_live: true, generation: g }),
                free: m.free.drop_last(),
                counter: g,
            },
            Ok(GenerationalIndex { index: idx, generation: g }),
        )
    }
}

/// What `deallocate` does to a state.  Validation order matters: bounds
/// first, then the generation, then liveness, so that a double-free of a
/// dead-but-current handle reads as `AlreadyDeallocated` rather than as a
/// bounds or mismatch error.  On success only the liveness flag flips: the
/// stored generation and the counter are kept.
pub open spec fn spec_deallocate(m: AllocatorModel, h: GenerationalIndex) -> (AllocatorModel, Result<
    (),
    DeallocationError,
>) {
    if h.index as int >= m.slots.len() {
        (m, Err(DeallocationError::IndexOOB))
    } else if m.slots[h.index as int].generation != h.generation {
        (m, Err(DeallocationError::GenerationMismatch))
    } else if !m.slots[h.index as int].is_live {
        (m, Err(DeallocationError::AlreadyDeallocated))
    } else {
        (
            AllocatorModel {
                slots: m.slots.update(
                    h.index as int,
                    AllocatorEntry {
                        is_live: false,
                        generation: m.slots[h.index as int].generation,
                    },
                ),
                free: m.free.push(h.index),
                counter: m.counter,
            },
            Ok(()),
        )
    }
}

/// What `is_live` answers: whether the handle's slot is currently allocated,
/// irrespective of the handle's generation.
pub open spec fn spec_is_live(m: AllocatorModel, h: GenerationalIndex) -> Result<
    bool,
    GenerationalIndexError,
> {
    if h.index as int >= m.slots.len() {
        Err(GenerationalIndexError::IndexOOB)
    } else {
        Ok(m.slots[h.index as int].is_live)
    }
}

/// The three-stage validation every component-store access performs: the
/// index must be a slot of the store, the slot must be live in the
/// allocator, and the stored generation must equal the handle's.
pub open spec fn spec_entry_check(
    store_len: int,
    m: AllocatorModel,
    h: GenerationalIndex,
) -> Result<(), GenerationalIndexError> {
    if h.index as int >= store_len {
        Err(GenerationalIndexError::IndexOOB)
    } else {
        match spec_is_live(m, h) {
            Err(e) => Err(e),
            Ok(false) => Err(GenerationalIndexError::NotLive),
            Ok(true) => if m.slots[h.index as int].generation != h.generation {
                Err(GenerationalIndexError::GenerationMismatch)
            } else {
                Ok(())
            },
        }
    }
}

/// What `set` does to a store's contents: write the value at the handle's
/// slot when the access validates, leave the store untouched otherwise.
pub open spec fn spec_set<T>(s: Seq<T>, m: AllocatorModel, h: GenerationalIndex, v: T) -> (Seq<T>, Result<
    (),
    GenerationalIndexError,
>) {
    match spec_entry_check(s.len() as int, m, h) {
        Ok(()) => (s.update(h.index as int, v), Ok(())),
        Err(e) => (s, Err(e)),
    }
}

/// What `get` returns: the value at the handle's slot when the access
/// validates, the validation error otherwise.
pub open spec fn spec_get<T>(s: Seq<T>, m: AllocatorModel, h: GenerationalIndex) -> Result<
    T,
    GenerationalIndexError,
> {
    match spec_entry_check(s.len() as int, m, h) {
        Ok(()) => Ok(s[h.index as int]),
        Err(e) => Err(e),
    }
}

/// Allocation preserves the invariant.  The counter bound keeps the new
/// generation stamp from wrapping.
pub proof fn lemma_allocate_preserves_inv(m: AllocatorModel)
    requires
        inv(m),
        m.free.len() > 0 ==> m.counter < u32::MAX,
    ensures
        inv(spec_allocate(m).0),
{
    if m.free.len() > 0 {
        let idx = m.free.last();
        let m2 = spec_allocate(m).0;
        let last = m.free.len() - 1;
        assert(((m.free[last]) as int) < m.slots.len());
        assert forall|i: int|
            0 <= i < m2.slots.len() implies ((#[trigger] m2.slots[i]).is_live <==> !in_free(
            m2,
            i,
        )) by {
            if i == idx as int {
                if in_free(m2, i) {
                    let k = choose|k: int| 0 <= k < m2.free.len() && m2.free[k] as int == i;
                    assert(m.free[k] == m.free[last]);
                    assert(false);
                }
            } else {
                if in_free(m, i) {
                    let k = choose|k: int| 0 <= k < m.free.len() && m.free[k] as int == i;
                    assert(k != last);
                    assert(m2.free[k] as int == i);
                    assert(in_free(m2, i));
                }
                if in_free(m2, i) {
                    let k = choose|k: int| 0 <= k < m2.free.len() && m2.free[k] as int == i;
                    assert(m.free[k] as int == i);
                    assert(in_free(m, i));
                }
            }
        }
    }
}

/// Deallocation preserves the invariant, whichever way it ends.
pub proof fn lemma_deallocate_preserves_inv(m: AllocatorModel, h: GenerationalIndex)
    requires
        inv(m),
    ensures
        inv(spec_deallocate(m, h).0),
{
    if spec_deallocate(m, h).1 is Ok {
        let i0 = h.index as int;
        let m2 = spec_deallocate(m, h).0;
        let len = m.free.len() as int;
        assert(!in_free(m, i0));
        assert forall|k1: int, k2: int|
            0 <= k1 < k2 < m2.free.len() implies m2.free[k1] != m2.free[k2] by {
            if k2 == len {
                if m2.free[k1] == h.index {
                    assert(m.free[k1] as int == i0);
                    assert(in_free(m, i0));
                }
            }
        }
        assert forall|i: int|
            0 <= i < m2.slots.len() implies ((#[trigger] m2.slots[i]).is_live <==> !in_free(
            m2,
            i,
        )) by {
            if i == i0 {
                assert(m2.free[len] as int == i0);
                assert(in_free(m2, i0));
            } else {
                if in_free(m, i) {
                    let k = choose|k: int| 0 <= k < m.free.len() && m.free[k] as int == i;
                    assert(m2.free[k] as int == i);
                    assert(in_free(m2, i));
                }
                if in_free(m2, i) {
                    let k = choose|k: int| 0 <= k < m2.free.len() && m2.free[k] as int == i;
                    assert(k != len);
                    assert(m.free[k] as int == i);
                    assert(in_free(m, i));
                }
            }
        }
    }
}

} // verus!
