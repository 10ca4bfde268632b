use kernel::bits::CanManipulateBits;

#[test]
fn masks() {
    assert_eq!(u64::create_mask(0, 16), 0xffff);
    assert_eq!(u64::create_mask(48, 16), 0xffff_0000_0000_0000);
    assert_eq!(u64::create_mask(5, 0), 0);
}

#[test]
fn fields() {
    let x: u64 = 0x1234_5678_9abc_def0;
    assert_eq!(x.get_bits(16, 16), 0x9abc);
    assert_eq!(x.set_bits(16, 16, 0xffff_1111), 0x1234_5678_1111_def0);
    assert_eq!(0u64.set_one_bit(47, true), 1 << 47);
    assert_eq!(u64::MAX.set_one_bit(0, false), u64::MAX - 1);
}

#[test]
fn narrow_widths() {
    assert_eq!(u8::create_mask(5, 2), 0x60);
    assert_eq!(0xa5u8.get_bits(4, 4), 0xa);
    assert_eq!(0u8.set_bits(5, 2, 3), 0x60);
    assert_eq!(0u8.set_one_bit(7, true), 0x80);
    assert_eq!(0xffffu16.set_bits(8, 4, 0), 0xf0ff);
    assert_eq!(0x1234u16.get_bits(4, 8), 0x23);
    assert_eq!(0u32.set_bits(16, 16, 0xbeef), 0xbeef_0000);
    assert_eq!(0xdead_beefu32.get_bits(16, 16), 0xdead);
    assert_eq!(u32::MAX.set_one_bit(31, false), 0x7fff_ffff);
}
