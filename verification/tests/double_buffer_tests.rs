use double_res::DoubleBuffer;
use double_res::IntoDoubleBuffer;

#[test]
fn new_starts_equal() {
    let b = DoubleBuffer::new((10u32, 20u32));
    assert_eq!(b.current(), &(10, 20));
    assert_eq!(b.next(), &(10, 20));
    assert_eq!(b.index(), 0);
}

#[test]
fn index_stays_in_range() {
    let mut b = DoubleBuffer::new(5u8);
    assert!(b.index() <= 1);
    for _ in 0..5 {
        b.swap();
        assert!(b.index() <= 1);
    }
}

#[test]
fn double_swap_is_identity() {
    let mut b = DoubleBuffer::from_buffer([1u8, 2u8], 1);
    b.swap();
    b.swap();
    assert_eq!(b.index(), 1);
    assert_eq!(b.buffer(), &[1, 2]);
}

#[test]
fn swap_toggles_index() {
    let mut b = DoubleBuffer::<()>::default();
    assert_eq!(b.index(), 0);
    b.swap();
    assert_eq!(b.index(), 1);
    b.swap();
    assert_eq!(b.index(), 0);
}

#[test]
fn split_is_physical_regardless_of_swaps() {
    let mut b = DoubleBuffer::from_buffer([(10u8, 20u8), (20u8, 10u8)], 0);
    assert_eq!(b.split(), (&(10, 20), &(20, 10)));
    b.swap();
    assert_eq!(b.split(), (&(10, 20), &(20, 10)));
}

#[test]
fn split_ordered_is_logical() {
    let mut b = DoubleBuffer::from_buffer([(10u8, 20u8), (0u8, 0u8)], 0);
    {
        let (cur, nxt) = b.split_ordered();
        assert_eq!(cur, &(10, 20));
        assert_eq!(*nxt, (0, 0));
        nxt.0 = cur.1;
        nxt.1 = cur.0;
    }
    b.swap();
    let (cur, nxt) = b.split_ordered();
    assert_eq!(cur, &(20, 10));
    assert_eq!(*nxt, (10, 20));
}

#[test]
fn apply_then_swap_publishes_staged_value() {
    let mut b = DoubleBuffer::new(3u64);
    b.apply(|cur, nxt| {
        *nxt = cur + 39;
    });
    b.swap();
    assert_eq!(b.current(), &42);
    assert_eq!(b.next(), &3);
}

#[test]
fn flip_cycle_scenario() {
    let mut t = DoubleBuffer::new((10u8, 20u8));
    t.apply(|cur, nxt| {
        nxt.0 = cur.1;
        nxt.1 = cur.0;
    });
    t.swap();
    assert_eq!(t.current(), &(20, 10));
    assert_eq!(t.next(), &(10, 20));
    t.apply(|cur, nxt| {
        nxt.0 = cur.1;
        nxt.1 = cur.0;
    });
    t.swap();
    assert_eq!(t.current(), &(10, 20));
    assert_eq!(t.next(), &(20, 10));
}

#[test]
fn mutating_current_leaves_next_alone() {
    let mut b = DoubleBuffer::from_buffer([(10u8, 20u8), (20u8, 10u8)], 0);
    b.current_mut().0 = 99;
    assert_eq!(b.next(), &(20, 10));
    b.next_mut().1 = 7;
    assert_eq!(b.current(), &(99, 20));
    assert_eq!(b.next(), &(20, 7));
}

#[test]
fn manual_construction_with_selector_one() {
    let b = DoubleBuffer::from_buffer(['a', 'b'], 1);
    assert_eq!(b.current(), &'b');
    assert_eq!(b.next(), &'a');
}

#[test]
fn set_index_selects_slot() {
    let mut b = DoubleBuffer::from_buffer([(10u8, 20u8), (20u8, 10u8)], 0);
    b.set_index(1);
    assert_eq!(b.index(), 1);
    assert_eq!(b.current(), &(20, 10));
}

#[test]
fn buffer_accessors_expose_storage() {
    let mut b = DoubleBuffer::from_buffer([(10u8, 20u8), (20u8, 10u8)], 0);
    assert_eq!(b.buffer(), &[(10, 20), (20, 10)]);
    b.buffer_mut()[0] = (30, 40);
    assert_eq!(b.buffer(), &[(30, 40), (20, 10)]);
}

#[test]
fn split_mut_gives_disjoint_slots_in_physical_order() {
    let mut b = DoubleBuffer::from_buffer([1u8, 2u8], 0);
    {
        let (first, second) = b.split_mut();
        *first = 10;
        *second = 20;
    }
    assert_eq!(b.buffer(), &[10, 20]);
    b.swap();
    let (first, second) = b.split_mut();
    assert_eq!((*first, *second), (10, 20));
}

#[test]
fn apply_returns_closure_result() {
    let mut b = DoubleBuffer::new(1u8);
    let r = b.apply(|cur, nxt| {
        *nxt = cur + 1;
        *cur
    });
    assert_eq!(r, 1);
    assert_eq!(b.next(), &2);
}

#[test]
fn reference_converts_to_owned_buffer() {
    let v = vec![1u8, 2, 3];
    let b = (&v).into_double_buf();
    assert_eq!(b.current(), &vec![1u8, 2, 3]);
    assert_eq!(b.next(), &vec![1u8, 2, 3]);
    assert_eq!(b.index(), 0);
}

#[test]
fn tuple_value_converts_by_autoref() {
    let t = (10u8, 20u8).into_double_buf();
    assert_eq!(t.current(), &(10, 20));
    assert_eq!(t.next(), &(10, 20));
    assert_eq!(t.index(), 0);
}

#[test]
fn from_value_seeds_buffer() {
    let b: DoubleBuffer<(u8, u8)> = (10, 20).into();
    assert_eq!(b.current(), &(10, 20));
    assert_eq!(b.next(), &(10, 20));
    assert_eq!(b.index(), 0);
}

#[test]
fn default_seeds_with_default_value() {
    let b = DoubleBuffer::<(u8, u8)>::default();
    assert_eq!(b.current(), &(0, 0));
    assert_eq!(b.next(), &(0, 0));
    assert_eq!(b.index(), 0);
}
