use kernel::mutex::SpinMutex;

#[test]
fn second_attempt_fails_while_locked() {
    let mut m = SpinMutex::new(7u32);
    assert!(!m.is_locked());
    let g = m.try_lock().unwrap();
    assert!(m.is_locked());
    assert!(m.try_lock().is_none());
    assert_eq!(*g.get(), 7);
    m.unlock(g);
    assert!(!m.is_locked());
    assert!(m.try_lock().is_some());
}

#[test]
fn update_through_guard_is_seen_by_next_holder() {
    let mut m = SpinMutex::new(vec![1u8, 2]);
    let mut g = m.lock();
    g.get_mut().push(3);
    m.unlock(g);
    let g = m.lock();
    assert_eq!(g.get(), &vec![1, 2, 3]);
}
