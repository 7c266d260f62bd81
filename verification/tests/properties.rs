use object_pool::{pull, try_pull, Pool, Reusable};

#[test]
fn fresh_pool_has_capacity_size() {
    let empty: Pool<u32> = Pool::new("empty".to_string(), 0, || 0u32);
    assert_eq!(empty.len(), 0);
    assert!(empty.is_empty());

    let five: Pool<u32> = Pool::new("five".to_string(), 5, || 42u32);
    assert_eq!(five.len(), 5);
    assert!(!five.is_empty());
    assert_eq!(five.cnt_fail, 0);
    assert_eq!(five.name, "five");
}

#[test]
fn factory_runs_once_per_slot() {
    let mut pool: Pool<u32> = Pool::new("f".to_string(), 3, || 42u32);
    for _ in 0..3 {
        let guard = try_pull(&mut pool).unwrap();
        assert_eq!(guard.data, 42);
    }
    assert!(try_pull(&mut pool).is_none());
}

#[test]
fn drain_succeeds_capacity_times_then_empty() {
    let mut pool: Pool<u8> = Pool::new("drain".to_string(), 4, || 1u8);
    let mut guards = Vec::new();
    for _ in 0..4 {
        let g = try_pull(&mut pool);
        assert!(g.is_some());
        guards.push(g.unwrap());
    }
    assert!(try_pull(&mut pool).is_none());
    assert_eq!(pool.len(), 0);
    for g in guards {
        g.release(&mut pool);
    }
    assert_eq!(pool.len(), 4);
    assert!(try_pull(&mut pool).is_some());
}

#[test]
fn detach_then_reattach_round_trips() {
    let mut pool: Pool<String> = Pool::new("rt".to_string(), 1, || "hello".to_string());
    let before = pool.len();
    let (pooled, value) = try_pull(&mut pool).unwrap().detach();
    assert!(pooled);
    assert_eq!(value, "hello");
    pool.attach(value);
    assert_eq!(pool.len(), before);
    assert_eq!(try_pull(&mut pool).unwrap().data, "hello");
}

#[test]
fn detach_without_reattach_shrinks_accounting() {
    let mut pool: Pool<u64> = Pool::new("gone".to_string(), 2, || 9u64);
    let (_pooled, value) = try_pull(&mut pool).unwrap().detach();
    drop(value);
    assert_eq!(pool.len(), 1);
    // the detached value is out of pool accounting for good
    try_pull(&mut pool).unwrap().release(&mut pool);
    assert_eq!(pool.len(), 1);
}

#[test]
fn pull_never_fails_and_counts_saturation() {
    let mut pool: Pool<u32> = Pool::new("sat".to_string(), 1, || 5u32);
    assert_eq!(pool.cnt_fail, 0);
    let constructed = pool.last_fail;

    // idle value present: no saturation recorded
    let g1 = pull(&mut pool, || 77u32);
    assert_eq!(g1.data, 5);
    assert_eq!(pool.cnt_fail, 0);
    assert_eq!(pool.last_fail, constructed);

    // pool saturated: the fallback value comes back and the counter grows
    let g2 = pull(&mut pool, || 77u32);
    assert_eq!(g2.data, 77);
    assert_eq!(pool.cnt_fail, 1);
    assert!(pool.last_fail >= constructed);

    let g3 = pull(&mut pool, || 88u32);
    assert_eq!(g3.data, 88);
    assert_eq!(pool.cnt_fail, 2);

    // releasing the fallback-built guards grows the pool past its initial fill
    g1.release(&mut pool);
    g2.release(&mut pool);
    g3.release(&mut pool);
    assert_eq!(pool.len(), 3);
}

#[test]
fn saturated_acquires_hand_out_each_value_once() {
    // three distinctly tagged idle values, five acquisition attempts:
    // exactly three succeed, and no tag comes out twice
    let mut pool: Pool<usize> = Pool::new("tags".to_string(), 0, || 0usize);
    for tag in 1..=3usize {
        pool.attach(tag);
    }
    let mut seen = Vec::new();
    let mut empties = 0usize;
    for _ in 0..5 {
        match try_pull(&mut pool) {
            Some(g) => {
                let (_, tag) = g.detach();
                assert!(!seen.contains(&tag));
                seen.push(tag);
            }
            None => empties += 1,
        }
    }
    assert_eq!(seen.len(), 3);
    assert_eq!(empties, 2);
    let mut sorted = seen.clone();
    sorted.sort();
    assert_eq!(sorted, vec![1, 2, 3]);
}

#[test]
fn scenario_detach_substitute_attach() {
    let mut pool: Pool<Vec<i64>> = Pool::new("test".to_string(), 1, || Vec::new());
    let guard = try_pull(&mut pool).unwrap();
    let (_pooled, mut value) = guard.detach();
    value.push(1);
    pool.attach(value);
    let retrieved = try_pull(&mut pool).unwrap();
    assert_eq!(retrieved.data, vec![1]);
}

#[test]
fn scenario_capacity_ten_cycle() {
    let mut pool: Pool<u8> = Pool::new("test".to_string(), 10, || 0u8);
    let mut guards = Vec::new();
    for _ in 0..10 {
        let g = try_pull(&mut pool);
        assert!(g.is_some());
        guards.push(g.unwrap());
    }
    assert!(try_pull(&mut pool).is_none());
    for g in guards {
        g.release(&mut pool);
    }
    assert_eq!(pool.len(), 10);
    assert!(try_pull(&mut pool).is_some());
}

#[test]
fn unpooled_guard_releases_without_touching_pool() {
    let mut pool: Pool<u16> = Pool::new("loose".to_string(), 1, || 3u16);
    let loose = Reusable::new(false, 99u16);
    assert!(!loose.pooled);
    assert_eq!(loose.data, 99);
    loose.release(&mut pool);
    assert_eq!(pool.len(), 1);
}

#[test]
fn lifo_hands_back_most_recent() {
    let mut pool: Pool<char> = Pool::new("lifo".to_string(), 0, || ' ');
    pool.attach('a');
    pool.attach('b');
    assert_eq!(try_pull(&mut pool).unwrap().data, 'b');
    assert_eq!(try_pull(&mut pool).unwrap().data, 'a');
}
