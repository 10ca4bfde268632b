use kernel::gdt::{
    create_gdt_entries, table_limit, AccessByte, GdtError, GdtSegment, GdtTable,
    KERNEL_CODE_DESCRIPTOR, KERNEL_DATA_DESCRIPTOR,
};

fn readable_code() -> GdtSegment {
    GdtSegment::new(0, 0xffff_ffff)
        .with_access_byte(AccessByte::Present)
        .with_access_byte(AccessByte::NotSystemDescriptor)
        .with_access_byte(AccessByte::Executable)
        .with_access_byte(AccessByte::ReadWrite)
        .set_32bit_segment_size(true)
        .set_page_granularity(true)
}

#[test]
fn readable_code_descriptor_packs_to_known_value() {
    assert_eq!(readable_code().as_u64(), 0x00CF_9A00_0000_FFFF);
}

#[test]
fn accessed_code_descriptor_packs_to_known_value() {
    let s = GdtSegment::new(0, 0xffff_ffff)
        .with_access_byte(AccessByte::Present)
        .with_access_byte(AccessByte::NotSystemDescriptor)
        .with_access_byte(AccessByte::Executable)
        .with_access_byte(AccessByte::Accessed)
        .set_32bit_segment_size(true)
        .set_page_granularity(true);
    assert_eq!(s.as_u64(), 0x00CF_9900_0000_FFFF);
}

#[test]
fn gdt_entries_are_null_code_data() {
    let e = create_gdt_entries();
    assert_eq!(e, [0, 0x00CF_9900_0000_FFFF, 0x00CF_9300_0000_FFFF]);
    assert_eq!(e[1], KERNEL_CODE_DESCRIPTOR);
    assert_eq!(e[2], KERNEL_DATA_DESCRIPTOR);
}

#[test]
fn descriptor_round_trip_keeps_fields() {
    let s = GdtSegment::new(0x1234_5678, 0xa_bcde)
        .with_access_byte(AccessByte::Present)
        .with_access_byte(AccessByte::NotSystemDescriptor)
        .with_access_byte(AccessByte::ReadWrite)
        .with_access_byte(AccessByte::Accessed)
        .set_privilege(3)
        .unwrap()
        .set_page_granularity(true);
    let d = s.as_u64();
    assert_eq!(d, 0x128A_F334_5678_BCDE);
    let back = GdtSegment::from_u64(d);
    assert_eq!(back.base(), 0x1234_5678);
    assert_eq!(back.limit(), 0xa_bcde);
    assert_eq!(back.access_byte(), 0xf3);
    assert_eq!(back.flag(), 0x80);
    assert_eq!(back.as_u64(), d);
}

#[test]
fn limit_keeps_only_twenty_bits() {
    let d = GdtSegment::new(0, 0xfff1_2345).as_u64();
    assert_eq!(GdtSegment::from_u64(d).limit(), 0x1_2345);
}

#[test]
fn access_bits_toggle() {
    let s = GdtSegment::new(0, 0).with_access_byte(AccessByte::Direction);
    assert_eq!(s.access_byte(), 0x04);
    let s = s.with_access_byte(AccessByte::Direction);
    assert_eq!(s.access_byte(), 0);
}

#[test]
fn flag_as_u16_puts_flags_high() {
    assert_eq!(readable_code().flag_as_u16(), 0xc09a);
}

#[test]
fn privilege_levels() {
    let s = GdtSegment::new(0, 0).set_privilege(3).unwrap();
    assert_eq!(s.access_byte(), 0x60);
    let s = s.set_privilege(1).unwrap();
    assert_eq!(s.access_byte(), 0x20);
    assert!(matches!(GdtSegment::new(0, 0).set_privilege(4), Err(GdtError::InvalidPrivilege)));
}

#[test]
fn long_mode_with_32bit_size_is_rejected() {
    let s = GdtSegment::new(0, 0)
        .with_access_byte(AccessByte::Executable)
        .set_32bit_segment_size(true);
    assert!(matches!(s.set_long_mode(true), Err(GdtError::LongModeWith32BitSize)));
}

#[test]
fn long_mode_on_data_segment_is_rejected() {
    let s = GdtSegment::new(0, 0).with_access_byte(AccessByte::ReadWrite);
    assert!(matches!(s.set_long_mode(true), Err(GdtError::LongModeNonExecutable)));
}

#[test]
fn long_mode_on_code_segment_is_accepted() {
    let s = GdtSegment::new(0, 0)
        .with_access_byte(AccessByte::Executable)
        .set_long_mode(true)
        .unwrap();
    assert_eq!(s.flag(), 0x20);
    let s = s.set_long_mode(false).unwrap();
    assert_eq!(s.flag(), 0);
    let off = GdtSegment::new(0, 0).set_32bit_segment_size(true).set_long_mode(false).unwrap();
    assert_eq!(off.flag(), 0x40);
}

#[test]
fn clearing_flags() {
    let s = readable_code().set_page_granularity(false).set_32bit_segment_size(false);
    assert_eq!(s.flag(), 0);
}

#[test]
fn table_register_values() {
    assert_eq!(table_limit(3), 23);
    assert_eq!(table_limit(256), 2047);
    let t = GdtTable::new(0x1000, 3);
    assert_eq!(t, GdtTable { limit: 23, base: 0x1000 });
}
