use minisync::atomic_bool::read_order;
use minisync::atomic_bool::write_order;
use minisync::atomic_bool::SimpleAtomicBool;
use std::sync::atomic::Ordering;

#[test]
fn load_returns_initial_value() {
    assert!(!SimpleAtomicBool::new(false).load(Ordering::SeqCst));
    assert!(SimpleAtomicBool::new(true).load(Ordering::SeqCst));
}

#[test]
fn store_overwrites() {
    let flag = SimpleAtomicBool::new(false);
    flag.store(true, Ordering::SeqCst);
    assert!(flag.load(Ordering::SeqCst));
    flag.store(false, Ordering::Release);
    assert!(!flag.load(Ordering::Acquire));
}

#[test]
fn compare_exchange_succeeds_on_expected_value() {
    let flag = SimpleAtomicBool::new(true);
    assert_eq!(
        flag.compare_exchange(true, false, Ordering::SeqCst, Ordering::SeqCst),
        Ok(true)
    );
    assert!(!flag.load(Ordering::SeqCst));
}

#[test]
fn compare_exchange_fails_on_other_value() {
    let flag = SimpleAtomicBool::new(false);
    assert_eq!(
        flag.compare_exchange(true, false, Ordering::SeqCst, Ordering::SeqCst),
        Err(false)
    );
    assert!(!flag.load(Ordering::SeqCst));
    let flag = SimpleAtomicBool::new(true);
    assert_eq!(
        flag.compare_exchange(false, false, Ordering::AcqRel, Ordering::Acquire),
        Err(true)
    );
    assert!(flag.load(Ordering::SeqCst));
}

#[test]
fn one_toggle_has_one_winner() {
    for start in [false, true] {
        let flag = SimpleAtomicBool::new(start);
        let mut wins = 0;
        for _ in 0..8 {
            if flag
                .compare_exchange(start, !start, Ordering::AcqRel, Ordering::Relaxed)
                .is_ok()
            {
                wins += 1;
            }
        }
        assert_eq!(wins, 1);
        assert_eq!(flag.load(Ordering::SeqCst), !start);
    }
}

#[test]
fn swap_returns_previous() {
    let flag = SimpleAtomicBool::new(false);
    assert!(!flag.swap(true, Ordering::AcqRel));
    assert!(flag.swap(true, Ordering::AcqRel));
    assert!(flag.swap(false, Ordering::Relaxed));
    assert!(!flag.load(Ordering::SeqCst));
}

#[test]
fn fetch_or_then_load_is_true() {
    for start in [false, true] {
        let flag = SimpleAtomicBool::new(start);
        assert_eq!(flag.fetch_or(true, Ordering::SeqCst), start);
        assert!(flag.load(Ordering::SeqCst));
    }
}

#[test]
fn fetch_or_table() {
    for (start, val, after) in [
        (false, false, false),
        (false, true, true),
        (true, false, true),
        (true, true, true),
    ] {
        let flag = SimpleAtomicBool::new(start);
        assert_eq!(flag.fetch_or(val, Ordering::SeqCst), start);
        assert_eq!(flag.load(Ordering::SeqCst), after);
    }
}

#[test]
fn fetch_and_table() {
    for (start, val, after) in [
        (false, false, false),
        (false, true, false),
        (true, false, false),
        (true, true, true),
    ] {
        let flag = SimpleAtomicBool::new(start);
        assert_eq!(flag.fetch_and(val, Ordering::SeqCst), start);
        assert_eq!(flag.load(Ordering::SeqCst), after);
    }
}

#[test]
fn fetch_xor_table() {
    for (start, val, after) in [
        (false, false, false),
        (false, true, true),
        (true, false, true),
        (true, true, false),
    ] {
        let flag = SimpleAtomicBool::new(start);
        assert_eq!(flag.fetch_xor(val, Ordering::SeqCst), start);
        assert_eq!(flag.load(Ordering::SeqCst), after);
    }
}

#[test]
fn every_ordering_is_accepted() {
    let all = [
        Ordering::Relaxed,
        Ordering::Acquire,
        Ordering::Release,
        Ordering::AcqRel,
        Ordering::SeqCst,
    ];
    let flag = SimpleAtomicBool::new(false);
    for order in all {
        flag.store(true, order);
        assert!(flag.load(order));
        assert!(flag.swap(false, order));
        assert!(!flag.fetch_or(true, order));
        assert!(flag.fetch_and(true, order));
        assert!(flag.fetch_xor(true, order));
        for failure in all {
            assert_eq!(flag.compare_exchange(true, true, order, failure), Err(false));
            assert_eq!(flag.compare_exchange(false, false, order, failure), Ok(false));
        }
    }
}

#[test]
fn read_order_keeps_what_fits() {
    assert_eq!(read_order(Ordering::Relaxed), Ordering::Relaxed);
    assert_eq!(read_order(Ordering::Acquire), Ordering::Acquire);
    assert_eq!(read_order(Ordering::SeqCst), Ordering::SeqCst);
    assert_eq!(read_order(Ordering::Release), Ordering::SeqCst);
    assert_eq!(read_order(Ordering::AcqRel), Ordering::SeqCst);
}

#[test]
fn write_order_keeps_what_fits() {
    assert_eq!(write_order(Ordering::Relaxed), Ordering::Relaxed);
    assert_eq!(write_order(Ordering::Release), Ordering::Release);
    assert_eq!(write_order(Ordering::SeqCst), Ordering::SeqCst);
    assert_eq!(write_order(Ordering::Acquire), Ordering::SeqCst);
    assert_eq!(write_order(Ordering::AcqRel), Ordering::SeqCst);
}
