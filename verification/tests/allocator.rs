use mini_ecs::ecs::{
    AllocatorEntry, AllocatorOutOfMemory, DeallocationError, GenerationalIndex,
    GenerationalIndexAllocator, GenerationalIndexError,
};

#[test]
fn fresh_entry_is_dead_at_generation_zero() {
    let e = AllocatorEntry::new();
    assert!(!e.is_live);
    assert_eq!(e.generation, 0);
}

#[test]
fn fresh_arena_slots_are_dead() {
    let a = GenerationalIndexAllocator::with_capacity(4);
    for i in 0..4u16 {
        let probe = GenerationalIndex { index: i, generation: 0 };
        assert_eq!(a.is_live(&probe), Ok(false));
    }
}

#[test]
fn allocation_hands_out_slots_in_index_order() {
    let mut a = GenerationalIndexAllocator::with_capacity(3);
    assert_eq!(a.allocate(), Ok(GenerationalIndex { index: 0, generation: 1 }));
    assert_eq!(a.allocate(), Ok(GenerationalIndex { index: 1, generation: 2 }));
    assert_eq!(a.allocate(), Ok(GenerationalIndex { index: 2, generation: 3 }));
}

#[test]
fn manual_init_pops_from_the_back_of_the_free_list() {
    let mut entries = Vec::new();
    let mut free = Vec::new();
    for i in 0..5u16 {
        entries.push(AllocatorEntry::new());
        free.push(i);
    }
    let mut a = GenerationalIndexAllocator::new(entries, free);
    assert_eq!(a.allocate(), Ok(GenerationalIndex { index: 4, generation: 1 }));
    assert_eq!(a.allocate(), Ok(GenerationalIndex { index: 3, generation: 2 }));
}

#[test]
fn handles_stay_pairwise_distinct_across_reuse() {
    let mut a = GenerationalIndexAllocator::with_capacity(2);
    let mut issued = Vec::new();
    let h0 = a.allocate().unwrap();
    issued.push(h0);
    let h1 = a.allocate().unwrap();
    issued.push(h1);
    a.deallocate(&h0).unwrap();
    issued.push(a.allocate().unwrap());
    a.deallocate(&h1).unwrap();
    issued.push(a.allocate().unwrap());
    for i in 0..issued.len() {
        for j in (i + 1)..issued.len() {
            assert_ne!(issued[i], issued[j]);
        }
    }
}

#[test]
fn allocation_fails_only_past_capacity() {
    let mut a = GenerationalIndexAllocator::with_capacity(2);
    let h0 = a.allocate().unwrap();
    let _h1 = a.allocate().unwrap();
    assert_eq!(a.allocate(), Err(AllocatorOutOfMemory));
    a.deallocate(&h0).unwrap();
    assert!(a.allocate().is_ok());
    assert_eq!(a.allocate(), Err(AllocatorOutOfMemory));
}

#[test]
fn stale_handle_is_a_generation_mismatch() {
    let mut a = GenerationalIndexAllocator::with_capacity(2);
    let h = a.allocate().unwrap();
    a.deallocate(&h).unwrap();
    let h2 = a.allocate().unwrap();
    assert_eq!(h2.index, h.index);
    assert!(h2.generation > h.generation);
    assert_eq!(a.deallocate(&h), Err(DeallocationError::GenerationMismatch));
    assert_eq!(a.deallocate(&h2), Ok(()));
}

#[test]
fn double_free_is_already_deallocated() {
    let mut a = GenerationalIndexAllocator::with_capacity(2);
    let h = a.allocate().unwrap();
    assert_eq!(a.deallocate(&h), Ok(()));
    assert_eq!(a.deallocate(&h), Err(DeallocationError::AlreadyDeallocated));
}

#[test]
fn out_of_bounds_handle_fails_whatever_its_generation() {
    let mut a = GenerationalIndexAllocator::with_capacity(3);
    for generation in [0u32, 1, 99] {
        let h = GenerationalIndex { index: 3, generation };
        assert_eq!(a.deallocate(&h), Err(DeallocationError::IndexOOB));
        assert_eq!(a.is_live(&h), Err(GenerationalIndexError::IndexOOB));
    }
}

#[test]
fn is_live_ignores_the_handle_generation() {
    let mut a = GenerationalIndexAllocator::with_capacity(1);
    let h = a.allocate().unwrap();
    let wrong_generation = GenerationalIndex { index: h.index, generation: h.generation + 7 };
    assert_eq!(a.is_live(&wrong_generation), Ok(true));
    a.deallocate(&h).unwrap();
    assert_eq!(a.is_live(&wrong_generation), Ok(false));
}

#[test]
fn deallocation_keeps_the_stored_generation() {
    let mut a = GenerationalIndexAllocator::with_capacity(2);
    let h = a.allocate().unwrap();
    a.deallocate(&h).unwrap();
    let stale_probe = GenerationalIndex { index: h.index, generation: h.generation + 1 };
    assert_eq!(a.deallocate(&stale_probe), Err(DeallocationError::GenerationMismatch));
    assert_eq!(a.deallocate(&h), Err(DeallocationError::AlreadyDeallocated));
}
