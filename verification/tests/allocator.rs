use panel_notifications::allocator::IdAllocator;

#[test]
fn first_fresh_id_is_one() {
    let mut allocator = IdAllocator::new();
    assert_eq!(allocator.peek(), 1);
    assert_eq!(allocator.allocate_or_reuse(0), 1);
    assert_eq!(allocator.peek(), 2);
}

#[test]
fn fresh_ids_go_up_by_one() {
    let mut allocator = IdAllocator::new();
    let mut previous = allocator.allocate_or_reuse(0);
    for _ in 0..1000 {
        let id = allocator.allocate_or_reuse(0);
        assert_eq!(id, previous + 1);
        previous = id;
    }
    assert_eq!(previous, 1001);
}

#[test]
fn replaced_id_comes_back_and_counter_stays() {
    let mut allocator = IdAllocator::new();
    assert_eq!(allocator.allocate_or_reuse(0), 1);
    assert_eq!(allocator.allocate_or_reuse(42), 42);
    assert_eq!(allocator.peek(), 2);
    assert_eq!(allocator.allocate_or_reuse(u32::MAX), u32::MAX);
    assert_eq!(allocator.peek(), 2);
    assert_eq!(allocator.allocate_or_reuse(1), 1);
    assert_eq!(allocator.peek(), 2);
    assert_eq!(allocator.allocate_or_reuse(0), 2);
}

#[test]
fn replaced_id_need_not_have_been_issued() {
    let mut allocator = IdAllocator::new();
    assert_eq!(allocator.allocate_or_reuse(77), 77);
    assert_eq!(allocator.allocate_or_reuse(0), 1);
}

#[test]
fn counter_wraps_past_zero() {
    let mut allocator = IdAllocator::starting_at(u32::MAX - 1).unwrap();
    assert_eq!(allocator.allocate_or_reuse(0), u32::MAX - 1);
    assert_eq!(allocator.allocate_or_reuse(0), u32::MAX);
    assert_eq!(allocator.peek(), 1);
    assert_eq!(allocator.allocate_or_reuse(0), 1);
    assert_eq!(allocator.allocate_or_reuse(0), 2);
}

#[test]
fn fresh_id_is_never_zero_around_the_wrap() {
    let mut allocator = IdAllocator::starting_at(u32::MAX - 5).unwrap();
    let mut seen = Vec::new();
    for _ in 0..12 {
        let id = allocator.allocate_or_reuse(0);
        assert_ne!(id, 0);
        assert!(!seen.contains(&id));
        seen.push(id);
    }
    assert_eq!(
        seen,
        vec![
            u32::MAX - 5,
            u32::MAX - 4,
            u32::MAX - 3,
            u32::MAX - 2,
            u32::MAX - 1,
            u32::MAX,
            1,
            2,
            3,
            4,
            5,
            6
        ]
    );
}

#[test]
fn no_allocator_starts_at_zero() {
    assert!(IdAllocator::starting_at(0).is_none());
    assert_eq!(IdAllocator::starting_at(1).unwrap().peek(), 1);
    assert_eq!(IdAllocator::starting_at(u32::MAX).unwrap().peek(), u32::MAX);
}
