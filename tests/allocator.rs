use kernel::allocator::{align_up, AllocInitError, BumpAlloc, Locked};
use kernel::multiboot::MmapEntry;

fn region(base_addr: u64, length: u64, type_: u32) -> MmapEntry {
    MmapEntry { size: 20, base_addr, length, type_ }
}

const KSTART: u64 = 0x10_0000;
const KEND: u64 = 0x20_0000;

fn arena(base: u64, len: u64) -> BumpAlloc {
    let mut b = BumpAlloc::new();
    b.init(&[region(base, len, 1)], KSTART, KEND).unwrap();
    b
}

#[test]
fn new_allocator_is_empty() {
    let b = BumpAlloc::new();
    assert_eq!((b.start(), b.end(), b.next(), b.allocs()), (0, 0, 0, 0));
}

#[test]
fn align_up_values() {
    assert_eq!(align_up(0, 8), 0);
    assert_eq!(align_up(1, 8), 8);
    assert_eq!(align_up(8, 8), 8);
    assert_eq!(align_up(0x1001, 0x1000), 0x2000);
    assert_eq!(align_up(usize::MAX, 2), usize::MAX as u128 + 1);
}

#[test]
fn init_skips_region_at_zero_and_reserved_ones() {
    let mut b = BumpAlloc::new();
    let map = [region(0, 0x9fc00, 1), region(0x9fc00, 0x400, 2), region(KSTART, 0x7ee_0000, 1)];
    assert_eq!(b.init(&map, KSTART, KEND), Ok(()));
    assert_eq!(b.start(), (KEND + 4) as usize);
    assert_eq!(b.end(), (KSTART + 0x7ee_0000) as usize);
    assert_eq!(b.next(), b.start());
    assert_eq!(b.allocs(), 0);
}

#[test]
fn init_region_above_kernel_is_kept_whole() {
    let b = arena(0x100_0000, 0x1000);
    assert_eq!(b.start(), 0x100_0000);
    assert_eq!(b.end(), 0x100_1000);
}

#[test]
fn init_without_usable_memory_fails() {
    let mut b = BumpAlloc::new();
    let map = [region(0, 0x9fc00, 1), region(0x9fc00, 0x400, 2)];
    assert_eq!(b.init(&map, KSTART, KEND), Err(AllocInitError::NoUsableMemory));
    assert_eq!(b.init(&[], KSTART, KEND), Err(AllocInitError::NoUsableMemory));
    assert_eq!(b.end(), 0);
}

#[test]
fn init_with_only_kernel_memory_fails() {
    let mut b = BumpAlloc::new();
    let map = [region(KSTART, KEND - KSTART, 1)];
    assert_eq!(b.init(&map, KSTART, KEND), Err(AllocInitError::NoMemoryLeft));
}

#[test]
fn init_region_below_kernel_fails() {
    let mut b = BumpAlloc::new();
    let map = [region(0x1000, 0x1000, 1)];
    assert_eq!(b.init(&map, KSTART, KEND), Err(AllocInitError::NoMemoryLeft));
}

#[test]
fn init_with_end_past_address_space_fails() {
    let mut b = BumpAlloc::new();
    let map = [region(0x100_0000, u64::MAX, 1)];
    assert_eq!(b.init(&map, KSTART, KEND), Err(AllocInitError::AddressOverflow));
}

#[test]
fn allocations_stay_in_arena_and_are_aligned() {
    let mut b = arena(0x100_0001, 0x100);
    let start = b.start();
    let end = b.end();
    let mut got = Vec::new();
    for (size, align) in [(3usize, 1usize), (8, 8), (16, 16), (1, 64), (200, 4), (0, 1)] {
        if let Some(a) = b.allocate(size, align) {
            assert!(start <= a && a + size <= end);
            assert_eq!(a % align, 0);
            got.push(a);
        }
    }
    assert_eq!(got, vec![0x100_0001, 0x100_0008, 0x100_0010, 0x100_0040, 0x100_0041]);
    assert_eq!(b.allocs(), 5);
}

#[test]
fn allocation_that_does_not_fit_fails_without_change() {
    let mut b = arena(0x100_0000, 0x100);
    assert_eq!(b.allocate(0xf0, 1), Some(0x100_0000));
    let next = b.next();
    assert_eq!(b.allocate(0x20, 1), None);
    assert_eq!(b.next(), next);
    assert_eq!(b.allocs(), 1);
    assert_eq!(b.allocate(0x10, 1), Some(0x100_00f0));
    assert_eq!(b.allocate(1, 1), None);
}

#[test]
fn cursor_resets_when_last_allocation_is_freed() {
    let mut b = arena(0x100_0000, 0x1000);
    b.allocate(0x100, 8).unwrap();
    b.allocate(0x100, 8).unwrap();
    b.deallocate();
    assert_eq!(b.next(), 0x100_0200);
    b.deallocate();
    assert_eq!(b.allocs(), 0);
    assert_eq!(b.next(), b.start());
    assert_eq!(b.allocate(0x10, 16), Some(b.start()));
}

#[test]
fn locked_allocator_hands_out_through_guard() {
    let mut l = Locked::new(arena(0x100_0000, 0x1000));
    let mut g = l.lock();
    assert_eq!(g.get_mut().allocate(4, 4), Some(0x100_0000));
    l.unlock(g);
    let g = l.lock();
    assert_eq!(g.get().next(), 0x100_0004);
    l.unlock(g);
}

#[test]
fn init_never_extends_past_region() {
    let mut b = BumpAlloc::new();
    assert_eq!(b.init(&[region(100, 100, 1)], 1000, 0), Ok(()));
    assert_eq!((b.start(), b.end()), (100, 200));
}

#[test]
fn init_keeps_padding_below_kernel() {
    let mut b = BumpAlloc::new();
    assert_eq!(b.init(&[region(0x300_0000, 0xfffe, 1)], 0x300_ffff, 0x300_0000), Ok(()));
    assert_eq!((b.start(), b.end()), (0x300_0000, 0x300_fffb));
}
