use pinnacle::tag::{TagId, TagIdAllocator};

#[test]
fn allocator_counts_from_zero() {
    let mut ids = TagIdAllocator::new();
    assert_eq!(ids.next(), TagId(0));
    assert_eq!(ids.next(), TagId(1));
    assert_eq!(ids.next(), TagId(2));
}

#[test]
fn allocator_starts_over_after_reset() {
    let mut ids = TagIdAllocator::new();
    ids.next();
    ids.next();
    ids.reset();
    assert_eq!(ids.next(), TagId(0));
    assert_eq!(ids.next(), TagId(1));
}

#[test]
fn reset_of_a_fresh_allocator_changes_nothing() {
    let mut ids = TagIdAllocator::new();
    ids.reset();
    assert_eq!(ids.next(), TagId(0));
}
