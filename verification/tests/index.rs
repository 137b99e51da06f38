//! The bounded cursor: clamping at both ends, and the empty list.

use strofa::block::Index;

#[test]
fn new_starts_at_zero() {
    let i = Index::new(5);
    assert_eq!(i.inner, 0);
    assert_eq!(i.max, 5);
}

#[test]
fn dec_any_number_of_times_stays_at_zero() {
    let mut i = Index::new(5);
    for _ in 0..10 {
        i.dec();
        assert_eq!(i.inner, 0);
    }
}

#[test]
fn inc_ten_times_with_bound_five_lands_on_four() {
    let mut i = Index::new(5);
    for _ in 0..10 {
        i.inc();
    }
    assert_eq!(i.inner, 4);
}

#[test]
fn inc_steps_one_at_a_time() {
    let mut i = Index::new(3);
    i.inc();
    assert_eq!(i.inner, 1);
    i.inc();
    assert_eq!(i.inner, 2);
    i.inc();
    assert_eq!(i.inner, 2);
}

#[test]
fn dec_steps_back() {
    let mut i = Index::new(3);
    i.inc();
    i.inc();
    i.dec();
    assert_eq!(i.inner, 1);
    i.dec();
    assert_eq!(i.inner, 0);
    i.dec();
    assert_eq!(i.inner, 0);
}

#[test]
fn empty_bound_absorbs_everything() {
    let mut i = Index::new(0);
    i.inc();
    assert_eq!(i.inner, 0);
    i.dec();
    assert_eq!(i.inner, 0);
}
