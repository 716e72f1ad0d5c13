use macy::history::History;

#[test]
fn full_buffer_evicts_oldest_first() {
    let mut h = History::new(3);
    h.push(1);
    h.push(2);
    h.push(3);
    h.push(4);
    assert_eq!(h.data().as_slice(), &[2, 3, 4]);
}

#[test]
fn pushing_fewer_than_capacity_never_evicts() {
    let mut h = History::new(3);
    h.push(10);
    assert_eq!(h.data().as_slice(), &[10]);
    h.push(20);
    assert_eq!(h.data().as_slice(), &[10, 20]);
    h.push(30);
    assert_eq!(h.data().as_slice(), &[10, 20, 30]);
}

#[test]
fn insertion_order_is_the_only_order() {
    let mut h = History::new(4);
    for v in [9, 1, 8, 2, 7, 3] {
        h.push(v);
    }
    assert_eq!(h.data().as_slice(), &[8, 2, 7, 3]);
}

#[test]
fn length_never_exceeds_capacity() {
    let mut h = History::new(2);
    for v in 0..100 {
        h.push(v);
        assert!(h.data().len() <= 2);
    }
    assert_eq!(h.data().as_slice(), &[98, 99]);
}
