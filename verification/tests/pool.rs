use market_codec::pool::ObjectPool;

#[test]
fn allocate_grows_the_arena_with_default_slots() {
    let mut pool: ObjectPool<u64> = ObjectPool::new(4);
    let a = pool.allocate();
    let b = pool.allocate();
    assert_eq!(a, 0);
    assert_eq!(b, 1);
    assert_eq!(*pool.get(a), 0);
    assert_eq!(*pool.get(b), 0);
}

#[test]
fn freed_handles_are_reused_most_recent_first() {
    let mut pool: ObjectPool<u64> = ObjectPool::new(0);
    let a = pool.allocate();
    let b = pool.allocate();
    let c = pool.allocate();
    pool.free(a);
    pool.free(c);
    assert_eq!(pool.allocate(), c);
    assert_eq!(pool.allocate(), a);
    // the free stack is empty again: a fresh slot past the arena's end
    assert_eq!(pool.allocate(), c + 1);
}

#[test]
fn get_mut_updates_the_slot_in_place() {
    let mut pool: ObjectPool<u64> = ObjectPool::new(1);
    let h = pool.allocate();
    *pool.get_mut(h) = 99;
    assert_eq!(*pool.get(h), 99);
    // a freed slot keeps its value until the handle is reused
    pool.free(h);
    assert_eq!(*pool.get(h), 99);
}
