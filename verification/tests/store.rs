use mini_ecs::ecs::{
    AllocatorOutOfMemory, GenerationalIndex, GenerationalIndexAllocator, GenerationalIndexArray,
    GenerationalIndexError,
};

fn arena_with_store(capacity: u16) -> (GenerationalIndexAllocator, GenerationalIndexArray<u32>) {
    let a = GenerationalIndexAllocator::with_capacity(capacity);
    let mut values = Vec::new();
    for _ in 0..capacity {
        values.push(0u32);
    }
    (a, GenerationalIndexArray(values))
}

#[test]
fn set_then_get_round_trips() {
    let (mut a, mut store) = arena_with_store(3);
    let h = a.allocate().unwrap();
    assert_eq!(store.set(&h, &a, 42), Ok(()));
    assert_eq!(store.get(&h, &a), Ok(&42));
    assert_eq!(store.set(&h, &a, 43), Ok(()));
    assert_eq!(store.get(&h, &a), Ok(&43));
}

#[test]
fn stores_round_trip_independently() {
    let mut a = GenerationalIndexAllocator::with_capacity(2);
    let mut numbers = GenerationalIndexArray(vec![0u32, 0]);
    let mut names = GenerationalIndexArray(vec![String::new(), String::new()]);
    let h = a.allocate().unwrap();
    assert_eq!(numbers.set(&h, &a, 9), Ok(()));
    assert_eq!(names.set(&h, &a, String::from("nine")), Ok(()));
    assert_eq!(numbers.get(&h, &a), Ok(&9));
    assert_eq!(names.get(&h, &a).map(|s| s.as_str()), Ok("nine"));
}

#[test]
fn get_mut_grants_mutable_access() {
    let (mut a, mut store) = arena_with_store(2);
    let h = a.allocate().unwrap();
    store.set(&h, &a, 5).unwrap();
    {
        let v = store.get_mut(&h, &a).unwrap();
        *v += 10;
    }
    assert_eq!(store.get(&h, &a), Ok(&15));
}

#[test]
fn dead_slot_reads_as_not_live() {
    let (mut a, mut store) = arena_with_store(2);
    let h = a.allocate().unwrap();
    store.set(&h, &a, 1).unwrap();
    a.deallocate(&h).unwrap();
    assert_eq!(store.get(&h, &a), Err(GenerationalIndexError::NotLive));
    assert_eq!(store.set(&h, &a, 2), Err(GenerationalIndexError::NotLive));
    assert_eq!(
        store.get_mut(&h, &a).map(|v| *v),
        Err(GenerationalIndexError::NotLive)
    );
}

#[test]
fn stale_handle_cannot_reach_the_new_occupant() {
    let (mut a, mut store) = arena_with_store(2);
    let h = a.allocate().unwrap();
    store.set(&h, &a, 111).unwrap();
    a.deallocate(&h).unwrap();
    let h2 = a.allocate().unwrap();
    assert_eq!(h2.index, h.index);
    store.set(&h2, &a, 222).unwrap();
    assert_eq!(store.get(&h, &a), Err(GenerationalIndexError::GenerationMismatch));
    assert_eq!(store.set(&h, &a, 333), Err(GenerationalIndexError::GenerationMismatch));
    assert_eq!(
        store.get_mut(&h, &a).map(|v| *v),
        Err(GenerationalIndexError::GenerationMismatch)
    );
    assert_eq!(store.get(&h2, &a), Ok(&222));
}

#[test]
fn out_of_bounds_handle_fails_every_store_access() {
    let (mut a, mut store) = arena_with_store(3);
    let _ = a.allocate().unwrap();
    for generation in [0u32, 1, 77] {
        let h = GenerationalIndex { index: 9, generation };
        assert_eq!(store.get(&h, &a), Err(GenerationalIndexError::IndexOOB));
        assert_eq!(store.set(&h, &a, 4), Err(GenerationalIndexError::IndexOOB));
        assert_eq!(
            store.get_mut(&h, &a).map(|v| *v),
            Err(GenerationalIndexError::IndexOOB)
        );
    }
}

#[test]
fn short_store_rejects_handles_past_its_own_length() {
    let mut a = GenerationalIndexAllocator::with_capacity(3);
    let mut short = GenerationalIndexArray(vec![0u32]);
    let h0 = a.allocate().unwrap();
    let h1 = a.allocate().unwrap();
    assert_eq!(short.set(&h0, &a, 8), Ok(()));
    assert_eq!(short.set(&h1, &a, 8), Err(GenerationalIndexError::IndexOOB));
}

#[test]
fn capacity_three_scenario() {
    let mut a = GenerationalIndexAllocator::with_capacity(3);
    let mut store = GenerationalIndexArray(vec![String::new(), String::new(), String::new()]);
    let a0 = a.allocate().unwrap();
    assert_eq!(a0, GenerationalIndex { index: 0, generation: 1 });
    let a1 = a.allocate().unwrap();
    assert_eq!(a1, GenerationalIndex { index: 1, generation: 2 });
    let a2 = a.allocate().unwrap();
    assert_eq!(a2, GenerationalIndex { index: 2, generation: 3 });
    a.deallocate(&a1).unwrap();
    let a3 = a.allocate().unwrap();
    assert_eq!(a3, GenerationalIndex { index: 1, generation: 4 });
    assert_eq!(store.get(&a1, &a), Err(GenerationalIndexError::GenerationMismatch));
    assert_eq!(store.set(&a3, &a, String::from("x")), Ok(()));
    assert_eq!(store.get(&a3, &a).map(|s| s.as_str()), Ok("x"));
    assert_eq!(a.allocate(), Err(AllocatorOutOfMemory));
    let _ = a2;
}
