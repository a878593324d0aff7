use frag::dirty::{DirtySet, MAX_STREAMS};

#[test]
fn marks_set_bits() {
    let mut d = DirtySet::new();
    assert!(!d.is_dirty());
    d.mark(0);
    d.mark(3);
    assert_eq!(d.snapshot(), 0b1001);
    assert!(d.is_dirty());
    d.mark(3);
    assert_eq!(d.snapshot(), 0b1001);
}

#[test]
fn bit_thirty_one_is_never_set() {
    let mut d = DirtySet::new();
    d.mark(MAX_STREAMS - 1);
    assert_eq!(d.snapshot(), 1 << 30);
    d.mark(MAX_STREAMS);
    d.mark(usize::MAX);
    assert_eq!(d.snapshot(), 1 << 30);
}

#[test]
fn consume_clears_only_the_snapshot_below_the_count() {
    let mut d = DirtySet::new();
    d.mark(0);
    d.mark(1);
    d.mark(4);
    let snap = d.snapshot();
    d.mark(2);
    // segments 0 and 1 exist; bit 4 lies beyond them
    d.consume(snap, 2);
    assert_eq!(d.snapshot(), 0b10100);
}
