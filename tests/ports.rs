use kernel::ports::PortAllocator;

#[test]
fn port_claimed_twice_fails_until_released() {
    let mut a = PortAllocator::new();
    let first = a.allocate(0x60).unwrap();
    assert_eq!(first.addr(), 0x60);
    assert!(a.allocate(0x60).is_none());
    a.release_port(first);
    assert!(a.allocate(0x60).is_some());
}

#[test]
fn release_by_address() {
    let mut a = PortAllocator::new();
    let _p = a.allocate(0xffff).unwrap();
    assert!(a.is_claimed(0xffff));
    a.release(0xffff);
    assert!(!a.is_claimed(0xffff));
    assert!(a.allocate(0xffff).is_some());
}

#[test]
fn other_ports_are_independent() {
    let mut a = PortAllocator::new();
    let _p = a.allocate(0x60).unwrap();
    assert!(!a.is_claimed(0x61));
    assert!(!a.is_claimed(0));
    assert!(a.allocate(0x64).is_some());
}
