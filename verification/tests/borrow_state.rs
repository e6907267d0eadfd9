use atomic_borrow::AtomicBorrow;

#[test]
fn atomic_borrow() {
    let mut borrow = AtomicBorrow::new();

    assert!(borrow.borrow());
    assert!(borrow.borrow());

    assert!(!borrow.borrow_mut());

    borrow.release();
    borrow.release();

    assert!(borrow.borrow_mut());

    assert!(!borrow.borrow());

    borrow.release_mut();
}

#[test]
fn fresh_state_is_free() {
    let b = AtomicBorrow::new();
    assert_eq!(b.shared_count(), 0);
    assert!(b.is_unique());
    assert!(!b.is_borrowed());
}

#[test]
fn default_state_is_free() {
    let b = AtomicBorrow::default();
    assert_eq!(b.shared_count(), 0);
    assert!(b.is_unique());
    assert!(!b.is_borrowed());
}

#[test]
fn masks_partition_the_word() {
    assert_eq!(AtomicBorrow::SHARED_MASK, usize::MAX >> 1);
    assert_eq!(AtomicBorrow::UNIQUE_MASK, !(usize::MAX >> 1));
    assert_eq!(AtomicBorrow::SHARED_MASK & AtomicBorrow::UNIQUE_MASK, 0);
    assert_eq!(AtomicBorrow::SHARED_MASK | AtomicBorrow::UNIQUE_MASK, usize::MAX);
}

#[test]
fn shared_then_unique_scenario() {
    let mut b = AtomicBorrow::new();

    assert!(b.borrow());
    assert_eq!(b.shared_count(), 1);

    assert!(b.borrow());
    assert_eq!(b.shared_count(), 2);

    assert!(!b.borrow_mut());

    b.release();
    b.release();
    assert_eq!(b.shared_count(), 0);

    assert!(b.borrow_mut());
    assert!(!b.borrow());

    b.release_mut();
    assert_eq!(b.shared_count(), 0);
    assert!(b.is_unique());
    assert!(!b.is_borrowed());
}

#[test]
fn shared_count_is_acquisitions_minus_releases() {
    let mut b = AtomicBorrow::new();
    let k: usize = 12;
    let j: usize = 5;
    for _ in 0..k {
        assert!(b.borrow());
    }
    for _ in 0..j {
        b.release();
    }
    assert_eq!(b.shared_count(), k - j);
    assert!(b.is_borrowed());
    for _ in 0..(k - j) {
        b.release();
    }
    assert_eq!(b.shared_count(), 0);
    assert!(!b.is_borrowed());
}

#[test]
fn unique_succeeds_only_on_free_state() {
    let mut b = AtomicBorrow::new();
    assert!(b.borrow_mut());
    // a second exclusive acquisition fails while one is outstanding
    assert!(!b.borrow_mut());
    b.release_mut();

    assert!(b.borrow());
    // an exclusive acquisition fails while a shared borrow is outstanding
    assert!(!b.borrow_mut());
    b.release();

    assert!(b.borrow_mut());
    b.release_mut();
}

#[test]
fn shared_fails_while_unique_held() {
    let mut b = AtomicBorrow::new();
    assert!(b.borrow_mut());
    assert_eq!(b.shared_count(), 0);
    assert!(!b.borrow());
    assert_eq!(b.shared_count(), 0);
    b.release_mut();
}

#[test]
fn acquire_release_round_trip_restores_state() {
    let mut b = AtomicBorrow::new();
    assert!(b.borrow());
    assert!(b.borrow());
    let count_before: usize = b.shared_count();
    let unique_before: bool = b.is_unique();
    let borrowed_before: bool = b.is_borrowed();

    assert!(b.borrow());
    b.release();
    assert_eq!(b.shared_count(), count_before);
    assert_eq!(b.is_unique(), unique_before);
    assert_eq!(b.is_borrowed(), borrowed_before);

    b.release();
    b.release();
    assert!(b.borrow_mut());
    b.release_mut();
    assert_eq!(b.shared_count(), 0);
    assert!(b.is_unique());
    assert!(!b.is_borrowed());
}

#[test]
fn is_unique_reports_absence_of_a_writer() {
    let mut b = AtomicBorrow::new();
    // a shared borrow leaves the state free of any writer
    assert!(b.borrow());
    assert!(b.is_unique());
    b.release();
    // an exclusive borrow does not
    assert!(b.borrow_mut());
    assert!(!b.is_unique());
    b.release_mut();
    assert!(b.is_unique());
}
