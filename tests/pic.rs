use kernel::pic::{
    end_of_interrupt_ports, irq_masks, pic_init_sequence, Pic, PicError, KEYBOARD_IRQ,
    PIC_MASTER_OFFSET, PIC_SLAVE_OFFSET,
};
use kernel::ports::PortAllocator;

#[test]
fn claim_takes_all_four_ports() {
    let mut a = PortAllocator::new();
    let pic = Pic::claim(&mut a).unwrap();
    for p in [0x20u16, 0x21, 0xa0, 0xa1] {
        assert!(a.is_claimed(p));
        assert_eq!(pic.port(p).unwrap().addr(), p);
    }
    assert!(pic.port(0x60).is_none());
    assert!(matches!(Pic::claim(&mut a), Err(PicError::PortTaken(0x20))));
    pic.release(&mut a);
    assert!(!a.is_claimed(0x20));
}

#[test]
fn claim_failure_leaves_table_unchanged() {
    let mut a = PortAllocator::new();
    let _slave_data = a.allocate(0xa1).unwrap();
    assert!(matches!(Pic::claim(&mut a), Err(PicError::PortTaken(0xa1))));
    for p in [0x20u16, 0x21, 0xa0] {
        assert!(!a.is_claimed(p));
    }
    assert!(a.is_claimed(0xa1));
}

#[test]
fn init_sequence_order() {
    let seq = pic_init_sequence(PIC_MASTER_OFFSET, PIC_SLAVE_OFFSET, 0xfd, 0xff);
    assert_eq!(
        seq,
        vec![
            (0x20, 0x11),
            (0xa0, 0x11),
            (0x21, 0x20),
            (0xa1, 0x28),
            (0x21, 0x04),
            (0xa1, 0x02),
            (0x21, 0x01),
            (0xa1, 0x01),
            (0x21, 0xfd),
            (0xa1, 0xff),
        ]
    );
}

#[test]
fn end_of_interrupt_targets() {
    assert_eq!(end_of_interrupt_ports(1), vec![0x20]);
    assert_eq!(end_of_interrupt_ports(7), vec![0x20]);
    assert_eq!(end_of_interrupt_ports(8), vec![0xa0, 0x20]);
    assert_eq!(end_of_interrupt_ports(15), vec![0xa0, 0x20]);
}

#[test]
fn masks_unmask_only_serviced_lines() {
    assert_eq!(irq_masks(&[KEYBOARD_IRQ]), (0xfd, 0xff));
    assert_eq!(irq_masks(&[]), (0xff, 0xff));
    assert_eq!(irq_masks(&[0, 1, 12]), (0xf8, 0xef));
    assert_eq!(irq_masks(&[1, 1]), (0xfd, 0xff));
}
