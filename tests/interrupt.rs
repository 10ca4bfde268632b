use kernel::interrupt::{Entry, GateType, Idtr, InterruptTable, IDT_TABLE_SIZE};

fn present(e: u64) -> bool {
    (e >> 47) & 1 == 1
}

#[test]
fn gate_layout() {
    let e = Entry::new(0x1234_5678, 0x08, GateType::Interrupt32Bit, 0);
    assert_eq!(e.value(), 0x1234_8e00_0008_5678);
    let t = Entry::new(0xdead_beef, 0x10, GateType::Trap16Bit, 3);
    assert_eq!(t.value(), 0xdead_e700_0010_beef);
    assert_eq!(Entry::new(0, 0, GateType::Task, 0).value(), 0x0000_8500_0000_0000);
    assert_eq!(Entry::new_invalid().value(), 0);
}

#[test]
fn empty_entries_have_no_handler() {
    assert!(Entry::new_invalid().has_no_handler());
    assert!(!Entry::new(0x1_0000, 8, GateType::Trap32Bit, 0).has_no_handler());
}

#[test]
fn new_table_is_empty() {
    let t = InterruptTable::new();
    for i in 0..IDT_TABLE_SIZE {
        assert_eq!(t.entry(i).value(), 0);
    }
}

#[test]
fn every_entry_present_after_filling() {
    let mut t = InterruptTable::new();
    t.set_interrupt(13, 0x0010_2030);
    t.set_interrupt(0x21, 0x0010_4050);
    t.fill_unset(0x0010_9000);
    for i in 0..IDT_TABLE_SIZE {
        assert!(present(t.entry(i).value()), "vector {i}");
    }
    assert_eq!(t.entry(13).value(), 0x0010_8e00_0008_2030);
    assert_eq!(t.entry(0x21).value(), 0x0010_8e00_0008_4050);
    assert_eq!(t.entry(0).value(), 0x0010_8e00_0008_9000);
    assert_eq!(t.entry(255).value(), 0x0010_8e00_0008_9000);
}

#[test]
fn idt_register_value() {
    assert_eq!(Idtr::new(0x20_0000), Idtr { limit: 2047, base: 0x20_0000 });
}

#[test]
fn filled_entries_all_have_handler_addresses() {
    let mut t = InterruptTable::new();
    t.set_interrupt(13, 0x0010_2030);
    t.fill_unset(0x0010_9000);
    for i in 0..IDT_TABLE_SIZE {
        let e = t.entry(i).value();
        assert_ne!((e & 0xffff) | ((e >> 48) << 16), 0, "vector {i}");
    }
}
