use std::sync::atomic::AtomicBool;
use std::sync::atomic::Ordering;

use ris_engine::atomic_lock::AtomicLock;
use ris_engine::test_lock::TestLock;

fn wait_and_lock(flag: &AtomicBool) -> AtomicLock<'_> {
    loop {
        if let Some(lock) = AtomicLock::try_lock(flag) {
            return lock;
        }
        std::hint::spin_loop();
    }
}

fn wait_test_lock(flag: &AtomicBool) -> TestLock<'_> {
    loop {
        if let Some(lock) = TestLock::try_lock(flag) {
            return lock;
        }
        std::hint::spin_loop();
    }
}

#[test]
fn single_threaded_test_one() {
    let flag = AtomicBool::new(false);

    // Lock the flag; another holder would make this spin until released.
    let lock = wait_and_lock(&flag);

    // do your testing...
    assert!(true);

    // Dropping the lock by hand keeps it held up to this point.
    drop(lock)
}

#[test]
fn atomic_lock_is_exclusive_until_dropped() {
    let flag = AtomicBool::new(false);
    let lock = wait_and_lock(&flag);
    assert!(flag.load(Ordering::SeqCst));
    assert!(AtomicLock::try_lock(&flag).is_none());
    drop(lock);
    assert!(!flag.load(Ordering::SeqCst));
    let again = wait_and_lock(&flag);
    assert!(flag.load(Ordering::SeqCst));
    drop(again);
    assert!(!flag.load(Ordering::SeqCst));
}

#[test]
fn test_lock_is_exclusive_until_dropped() {
    let flag = AtomicBool::new(false);
    let first = wait_test_lock(&flag);
    assert!(flag.load(Ordering::SeqCst));
    assert!(TestLock::try_lock(&flag).is_none());
    drop(first);
    assert!(!flag.load(Ordering::SeqCst));
    let second = wait_test_lock(&flag);
    assert!(flag.load(Ordering::SeqCst));
    drop(second);
}

#[test]
fn test_one() {
    let flag = AtomicBool::new(false);
    let mut shared_data = String::new();
    let lock = wait_test_lock(&flag);

    shared_data.push_str("hoi");
    assert_eq!(shared_data, "hoi");

    drop(lock)
}

#[test]
fn test_two() {
    let flag = AtomicBool::new(false);
    let mut shared_data = String::new();
    let lock = wait_test_lock(&flag);

    shared_data.push_str("poi");
    assert_eq!(shared_data, "poi");

    drop(lock)
}
