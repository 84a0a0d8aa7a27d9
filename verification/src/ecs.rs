//! The executable arena: handle type, slot allocator and component storage.

use vstd::prelude::*;

verus! {

/// Width of a slot index.
pub type IndexType = u16;

/// Width of a generation stamp.
pub type GenerationType = u32;

/// A handle into the arena: a slot index paired with the generation at which
/// the slot was handed out.  A handle is a capability, not a pointer: it
/// confers no access by itself, only a claim that the allocator can confirm
/// or refuse.  Two handles are equal iff both fields match.
#[derive(Clone, Copy, PartialEq, Eq, Structural, Debug)]
pub struct GenerationalIndex {
    pub index: IndexType,
    pub generation: GenerationType,
}

/// Per-slot bookkeeping: whether the slot is currently allocated, and the
/// generation of its current or most recent occupant.
#[derive(Clone, Copy, PartialEq, Eq, Structural, Debug)]
pub struct AllocatorEntry {
    pub is_live: bool,
    pub generation: GenerationType,
}

impl AllocatorEntry {
    /// A fresh, never-allocated slot entry.
    pub fn new() -> (e: AllocatorEntry)
        ensures
            !e.is_live,
            e.generation == 0,
    {
        AllocatorEntry { is_live: false, generation: 0 }
    }
}

/// The allocate failure: every slot is live and capacity never grows.  An
/// ordinary, recoverable condition the caller must expect under load.
#[derive(Clone, Copy, PartialEq, Eq, Structural, Debug)]
pub struct AllocatorOutOfMemory;

/// Why a deallocation was refused.
#[derive(Clone, Copy, PartialEq, Eq, Structural, Debug)]
pub enum DeallocationError {
    /// The handle's slot index is not a slot of this arena.
    IndexOOB,
    /// The handle is stale: its slot has since been recycled.
    GenerationMismatch,
    /// The handle's slot is already free: a double-free attempt.
    AlreadyDeallocated,
}

/// Why a component-store access (or a liveness query) was refused.
#[derive(Clone, Copy, PartialEq, Eq, Structural, Debug)]
pub enum GenerationalIndexError {
    /// The handle's slot index is not a slot of the store or of the arena.
    IndexOOB,
    /// The handle's slot is live but was reallocated since the handle was issued.
    GenerationMismatch,
    /// The handle's slot is currently free.
    NotLive,
}

/// Owns the slot table and the free list, issues and reclaims handles, and is
/// the single source of truth for whether a handle is still valid.  It manages
/// indices only, never the component data itself.
pub struct GenerationalIndexAllocator {
    pub entries: Vec<AllocatorEntry>,
    pub free: Vec<IndexType>,
    pub generation_counter: GenerationType,
}

impl View for GenerationalIndexAllocator {
    type V = crate::model::AllocatorModel;

    open spec fn view(&self) -> crate::model::AllocatorModel {
        crate::model::AllocatorModel {
            slots: self.entries@,
            free: self.free@,
            counter: self.generation_counter,
        }
    }
}

impl GenerationalIndexAllocator {
    /// The allocator's invariant, stated on the model.
    pub open spec fn wf(&self) -> bool {
        crate::model::inv(self@)
    }

    /// Builds an allocator over the given slot table and free list.  The
    /// caller supplies both pre-sized, so that all bookkeeping memory is
    /// reserved up front: every entry fresh, and every slot listed once on
    /// the free list.
    pub fn new(entries: Vec<AllocatorEntry>, free: Vec<IndexType>) -> (a: GenerationalIndexAllocator)
        requires
            forall|i: int|
                0 <= i < entries@.len() ==> !(#[trigger] entries@[i]).is_live
                    && entries@[i].generation == 0,
            forall|k: int| 0 <= k < free@.len() ==> ((#[trigger] free@[k]) as int) < entries@.len(),
            forall|k1: int, k2: int| 0 <= k1 < k2 < free@.len() ==> free@[k1] != free@[k2],
            forall|i: int| 0 <= i < entries@.len() ==> #[trigger] crate::model::listed(free@, i),
        ensures
            a.wf(),
            a@.slots == entries@,
            a@.free == free@,
            a@.counter == 0,
    {
        GenerationalIndexAllocator { entries, free, generation_counter: 0 }
    }

    /// Builds a fresh arena of the given capacity: `capacity` dead slots at
    /// generation zero, and a free list holding every index once, laid out
    /// so that slots are handed out in index order, slot `0` first.
    pub fn with_capacity(capacity: IndexType) -> (a: GenerationalIndexAllocator)
        ensures
            a.wf(),
            a@.counter == 0,
            a@.slots.len() == capacity,
            a@.free.len() == capacity,
            forall|i: int|
                0 <= i < capacity ==> !(#[trigger] a@.slots[i]).is_live
                    && a@.slots[i].generation == 0,
            forall|k: int| 0 <= k < capacity ==> (#[trigger] a@.free[k]) as int == capacity - 1 - k,
    {
        let mut entries: Vec<AllocatorEntry> = Vec::new();
        let mut free: Vec<IndexType> = Vec::new();
        let mut i: IndexType = 0;
        while i < capacity
            invariant
                i <= capacity,
                entries@.len() == i,
                free@.len() == i,
                forall|j: int|
                    0 <= j < i ==> !(#[trigger] entries@[j]).is_live
                        && entries@[j].generation == 0,
                forall|k: int| 0 <= k < i ==> (#[trigger] free@[k]) as int == capacity - 1 - k,
            decreases capacity - i,
        {
            entries.push(AllocatorEntry::new());
            free.push(capacity - 1 - i);
            i = i + 1;
        }
        proof {
            assert forall|j: int| 0 <= j < entries@.len() implies #[trigger] crate::model::listed(
                free@,
                j,
            ) by {
                assert(free@[capacity - 1 - j] as int == j);
            }
        }
        GenerationalIndexAllocator::new(entries, free)
    }

    /// Reserves a free slot and returns it as a handle: the top of the free
    /// list is popped, the global generation counter steps by one, and the
    /// slot is stamped live with the new generation.  Fails with
    /// `AllocatorOutOfMemory` exactly when every slot is live; the arena is
    /// left untouched then, and running out is an ordinary recoverable
    /// condition.  The counter bound is a machine limit: each success needs
    /// one fresh `u32` generation.
    pub fn allocate(&mut self) -> (r: Result<GenerationalIndex, AllocatorOutOfMemory>)
        requires
            old(self).wf(),
            old(self)@.free.len() > 0 ==> old(self)@.counter < GenerationType::MAX,
        ensures
            final(self).wf(),
            final(self)@ == crate::model::spec_allocate(old(self)@).0,
            r == crate::model::spec_allocate(old(self)@).1,
    {
        proof {
            crate::model::lemma_allocate_preserves_inv(old(self)@);
        }
        match self.free.pop() {
            Some(index) => {
                proof {
                    assert(((old(self)@.free[old(self)@.free.len() - 1]) as int)
                        < old(self)@.slots.len());
                }
                self.generation_counter = self.generation_counter + 1;
                let entry = AllocatorEntry { is_live: true, generation: self.generation_counter };
                self.entries[index as usize] = entry;
                proof {
                    assert(self@ =~= crate::model::spec_allocate(old(self)@).0);
                }
                Ok(GenerationalIndex { index, generation: self.generation_counter })
            },
            None => Err(AllocatorOutOfMemory),
        }
    }

    /// Returns the handle's slot to the free pool.  Validates bounds, then
    /// the generation, then liveness, in that order; on success only the
    /// liveness flag flips — the stored generation and the counter are kept,
    /// so a later duplicate deallocate of the same handle reads as
    /// `AlreadyDeallocated`, and a stale handle as `GenerationMismatch`.
    /// On any error the arena is left untouched.
    pub fn deallocate(&mut self, index: &GenerationalIndex) -> (r: Result<(), DeallocationError>)
        requires
            old(self).wf(),
        ensures
            final(self).wf(),
            final(self)@ == crate::model::spec_deallocate(old(self)@, *index).0,
            r == crate::model::spec_deallocate(old(self)@, *index).1,
    {
        proof {
            crate::model::lemma_deallocate_preserves_inv(old(self)@, *index);
        }
        let i = index.index;
        if (i as usize) >= self.entries.len() {
            Err(DeallocationError::IndexOOB)
        } else if self.entries[i as usize].generation != index.generation {
            Err(DeallocationError::GenerationMismatch)
        } else if !self.entries[i as usize].is_live {
            Err(DeallocationError::AlreadyDeallocated)
        } else {
            let entry = AllocatorEntry { is_live: false, generation: index.generation };
            self.entries[i as usize] = entry;
            self.free.push(i);
            proof {
                assert(self@ =~= crate::model::spec_deallocate(old(self)@, *index).0);
            }
            Ok(())
        }
    }

    /// Reports whether the handle's slot is currently allocated, whatever
    /// the handle's generation; callers that want "is this exact handle
    /// valid" go through the component-store accessors, which also compare
    /// generations.
    pub fn is_live(&self, index: &GenerationalIndex) -> (r: Result<bool, GenerationalIndexError>)
        ensures
            r == crate::model::spec_is_live(self@, *index),
    {
        if (index.index as usize) >= self.entries.len() {
            Err(GenerationalIndexError::IndexOOB)
        } else {
            Ok(self.entries[index.index as usize].is_live)
        }
    }
}

/// A component store: one payload value per slot, index-addressed by a
/// handle.  It keeps no generation bookkeeping of its own — every access is
/// first authorized by the allocator, the single source of generation truth.
pub struct GenerationalIndexArray<T>(pub Vec<T>);

impl<T> View for GenerationalIndexArray<T> {
    type V = Seq<T>;

    open spec fn view(&self) -> Seq<T> {
        self.0@
    }
}

impl<T> GenerationalIndexArray<T> {
    /// Writes the value for a handle.  The slot must be within the store,
    /// live in the allocator, and carry the handle's generation; otherwise
    /// the store is untouched and the validation error comes back.
    /// Overwriting the value of the same live handle is expected: components
    /// are mutated every frame.
    pub fn set(
        &mut self,
        index: &GenerationalIndex,
        allocator: &GenerationalIndexAllocator,
        value: T,
    ) -> (r: Result<(), GenerationalIndexError>)
        ensures
            final(self)@ == crate::model::spec_set(old(self)@, allocator@, *index, value).0,
            r == crate::model::spec_set(old(self)@, allocator@, *index, value).1,
    {
        if (index.index as usize) >= self.0.len() {
            Err(GenerationalIndexError::IndexOOB)
        } else {
            match allocator.is_live(index) {
                Ok(alive) => match alive {
                    true => {
                        if index.generation != allocator.entries[index.index as usize].generation {
                            Err(GenerationalIndexError::GenerationMismatch)
                        } else {
                            self.0[index.index as usize] = value;
                            Ok(())
                        }
                    },
                    false => Err(GenerationalIndexError::NotLive),
                },
                Err(e) => Err(e),
            }
        }
    }

    /// Reads the value for a handle, after the same three-stage validation
    /// as `set`, returning a borrowed reference so callers can read without
    /// cloning.
    pub fn get(
        &self,
        index: &GenerationalIndex,
        allocator: &GenerationalIndexAllocator,
    ) -> (r: Result<&T, GenerationalIndexError>)
        ensures
            ({
                let g = crate::model::spec_get(self@, allocator@, *index);
                match r {
                    Ok(v) => g == Ok::<T, GenerationalIndexError>(*v),
                    Err(e) => g == Err::<T, GenerationalIndexError>(e),
                }
            }),
    {
        if (index.index as usize) >= self.0.len() {
            Err(GenerationalIndexError::IndexOOB)
        } else {
            match allocator.is_live(index) {
                Ok(alive) => match alive {
                    true => {
                        if allocator.entries[index.index as usize].generation != index.generation {
                            Err(GenerationalIndexError::GenerationMismatch)
                        } else {
                            Ok(&self.0[index.index as usize])
                        }
                    },
                    false => Err(GenerationalIndexError::NotLive),
                },
                Err(e) => Err(e),
            }
        }
    }

    /// Grants exclusive mutable access to the value for a handle, after the
    /// same three-stage validation as `set`.  On success the store's final
    /// contents are the old ones with the slot overwritten by whatever the
    /// caller leaves behind the returned reference; on any error the store
    /// is untouched.
    pub fn get_mut(
        &mut self,
        index: &GenerationalIndex,
        allocator: &GenerationalIndexAllocator,
    ) -> (r: Result<&mut T, GenerationalIndexError>)
        ensures
            ({
                let c = crate::model::spec_entry_check(
                    old(self)@.len() as int,
                    allocator@,
                    *index,
                );
                match r {
                    Ok(v) => c is Ok && *v == old(self)@[index.index as int] && final(self)@
                        == old(self)@.update(index.index as int, *final(v)),
                    Err(e) => c == Err::<(), GenerationalIndexError>(e) && final(self)@ == old(
                        self,
                    )@,
                }
            }),
    {
        if (index.index as usize) >= self.0.len() {
            Err(GenerationalIndexError::IndexOOB)
        } else {
            match allocator.is_live(index) {
                Ok(alive) => match alive {
                    true => {
                        if index.generation != allocator.entries[index.index as usize].generation {
                            Err(GenerationalIndexError::GenerationMismatch)
                        } else {
                            Ok(&mut self.0[index.index as usize])
                        }
                    },
                    false => Err(GenerationalIndexError::NotLive),
                },
                Err(e) => Err(e),
            }
        }
    }
}

/// A handle read as an entity identifier: the arena does not contain the
/// entity's data, it only names it.
pub type Entity = GenerationalIndex;

/// A component store read as a map from entity to component value.
pub type EntityMap<T> = GenerationalIndexArray<T>;

} // verus!
