use kernel::multiboot::{
    parse_mmap_entries, read_u32_le, read_u64_le, usable_memory_total, BootInfo, MmapEntry,
};

fn encode(entries: &[MmapEntry]) -> Vec<u8> {
    let mut out = Vec::new();
    for e in entries {
        out.extend_from_slice(&e.size.to_le_bytes());
        out.extend_from_slice(&e.base_addr.to_le_bytes());
        out.extend_from_slice(&e.length.to_le_bytes());
        out.extend_from_slice(&e.type_.to_le_bytes());
    }
    out
}

fn sample() -> Vec<MmapEntry> {
    vec![
        MmapEntry { size: 20, base_addr: 0, length: 0x9fc00, type_: 1 },
        MmapEntry { size: 20, base_addr: 0x9fc00, length: 0x400, type_: 2 },
        MmapEntry { size: 20, base_addr: 0x10_0000, length: 0x7ee_0000, type_: 1 },
        MmapEntry { size: 20, base_addr: 0xfffc_0000, length: 0x4_0000, type_: 2 },
    ]
}

#[test]
fn mmap_round_trip_keeps_count_fields_and_order() {
    let entries = sample();
    let buf = encode(&entries);
    assert_eq!(buf.len(), 96);
    let parsed = parse_mmap_entries(&buf);
    assert_eq!(parsed, entries);
}

#[test]
fn mmap_ignores_trailing_partial_entry() {
    let entries = sample();
    let mut buf = encode(&entries[..2]);
    buf.extend_from_slice(&[1, 2, 3, 4, 5]);
    let parsed = parse_mmap_entries(&buf);
    assert_eq!(parsed.len(), 2);
    assert_eq!(parsed[1], entries[1]);
}

#[test]
fn mmap_empty_buffer_has_no_entries() {
    assert!(parse_mmap_entries(&[]).is_empty());
}

#[test]
fn little_endian_reads() {
    let b = [0x78, 0x56, 0x34, 0x12, 0xf0, 0xde, 0xbc, 0x9a];
    assert_eq!(read_u32_le(&b, 0), 0x1234_5678);
    assert_eq!(read_u32_le(&b, 4), 0x9abc_def0);
    assert_eq!(read_u64_le(&b, 0), 0x9abc_def0_1234_5678);
}

fn boot_info_bytes(mmap_length: u32, mmap_addr: u32) -> Vec<u8> {
    let mut b = vec![0u8; 52];
    b[0..4].copy_from_slice(&0x40u32.to_le_bytes());
    b[4..8].copy_from_slice(&639u32.to_le_bytes());
    b[8..12].copy_from_slice(&130_048u32.to_le_bytes());
    b[44..48].copy_from_slice(&mmap_length.to_le_bytes());
    b[48..52].copy_from_slice(&mmap_addr.to_le_bytes());
    b
}

#[test]
fn boot_info_decodes_fields() {
    let info = BootInfo::from_bytes(&boot_info_bytes(96, 0x9000)).unwrap();
    assert_eq!(info.flags, 0x40);
    assert_eq!(info.mem_lower, 639);
    assert_eq!(info.mem_upper, 130_048);
    assert_eq!(info.mmap_length, 96);
    assert_eq!(info.mmap_addr, 0x9000);
    assert_eq!(info.mmap_entry_count(), 4);
}

#[test]
fn boot_info_too_short_is_rejected() {
    assert!(BootInfo::from_bytes(&[0u8; 51]).is_none());
}

#[test]
fn boot_info_reads_only_declared_map_length() {
    let entries = sample();
    let buf = encode(&entries);
    let info = BootInfo::from_bytes(&boot_info_bytes(48, 0x9000)).unwrap();
    let got = info.get_mmap_entries(&buf);
    assert_eq!(got, entries[..2].to_vec());
}

#[test]
fn usable_total_sums_type_one_lengths() {
    assert_eq!(usable_memory_total(&sample()), 0x9fc00 + 0x7ee_0000);
    assert_eq!(usable_memory_total(&[]), 0);
    let big = vec![MmapEntry { size: 20, base_addr: 1, length: u64::MAX, type_: 1 }; 2];
    assert_eq!(usable_memory_total(&big), 2 * u64::MAX as u128);
}
