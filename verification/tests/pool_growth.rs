use ring_reactor::pool::BufferPool;

#[test]
fn allocate_reuse_and_release() {
    let mut p = BufferPool::new();
    let a = p.allocate();
    let b = p.allocate();
    assert_ne!(a, b);
    assert!(p.is_allocated(a));
    assert!(p.is_allocated(b));
    p.release(a);
    assert!(!p.is_allocated(a));
    // the freed slot is reused
    let c = p.allocate();
    assert_eq!(c, a);
    assert!(p.is_allocated(c));
}

#[test]
fn out_of_order_release() {
    let mut p = BufferPool::new();
    let slots: Vec<u16> = (0..8).map(|_| p.allocate()).collect();
    // release in a scattered order
    for &i in &[3usize, 0, 7, 5, 1, 6, 2, 4] {
        p.release(slots[i]);
        assert!(!p.is_allocated(slots[i]));
    }
    for &s in &slots {
        assert!(!p.is_allocated(s));
    }
}

#[test]
fn presized_pool_grows_without_collision() {
    // a pool pre-sized for 2048 buffers takes 2050 concurrent allocations:
    // it grows, and no slot is handed out twice
    let mut p = BufferPool::with_capacity(2048);
    let mut seen = vec![false; 65536];
    for _ in 0..2050 {
        let s = p.allocate();
        assert!(!seen[s as usize], "slot {} handed out twice", s);
        seen[s as usize] = true;
        assert!(p.is_allocated(s));
    }
    assert_eq!(seen.iter().filter(|&&b| b).count(), 2050);
}
