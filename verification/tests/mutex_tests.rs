use minisync::mutex::SimpleMutex;

#[test]
fn guard_reads_initial_value() {
    let mutex = SimpleMutex::new(41u64);
    let guard = mutex.lock();
    assert_eq!(*guard, 41);
}

#[test]
fn guard_writes_are_kept() {
    let mutex = SimpleMutex::new(String::from("a"));
    {
        let mut guard = mutex.lock();
        guard.push('b');
    }
    assert_eq!(mutex.lock().as_str(), "ab");
}

#[test]
fn no_update_is_lost() {
    let mutex = SimpleMutex::new(0u64);
    let workers = 4;
    for _ in 0..workers {
        for _ in 0..1000 {
            let mut guard = mutex.lock();
            *guard += 1;
        }
    }
    assert_eq!(*mutex.lock(), 1000 * workers);
}

#[test]
fn second_guard_waits_for_first() {
    let mutex = SimpleMutex::new(5u32);
    let first = mutex.lock();
    assert!(mutex.try_lock().is_none());
    assert!(mutex.try_lock().is_none());
    drop(first);
    let second = mutex.try_lock();
    assert!(second.is_some());
    assert!(mutex.try_lock().is_none());
    drop(second);
    assert_eq!(*mutex.lock(), 5);
}

#[test]
fn try_lock_guard_gives_access() {
    let mutex = SimpleMutex::new(vec![1u8, 2]);
    match mutex.try_lock() {
        Some(mut guard) => guard.push(3),
        None => panic!("a free mutex must lock"),
    }
    assert_eq!(*mutex.lock(), vec![1u8, 2, 3]);
}
