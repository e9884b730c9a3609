use stm32_eth::rx::{RXDESC_0_ERRORS, RXDESC_0_OWN};
use stm32_eth::tx::{TXDESC_0_SEND, TXDESC_1_TBS_MASK};
use stm32_eth::{Descriptor, RxDescriptor, RxRingEntry, TxDescriptor, TxRingEntry, MTU};

#[test]
fn new_descriptor_is_zero() {
    let d = Descriptor::new();
    assert_eq!(d.words(), &[0, 0, 0, 0]);
    for n in 0..4 {
        assert_eq!(d.read(n), 0);
    }
}

#[test]
fn write_changes_one_word() {
    let mut d = Descriptor::new();
    d.write(2, 0x1234_5678);
    assert_eq!(d.words(), &[0, 0, 0x1234_5678, 0]);
    d.write(0, 7);
    d.write(3, 9);
    assert_eq!(d.words(), &[7, 0, 0x1234_5678, 9]);
    assert_eq!(d.read(2), 0x1234_5678);
}

#[test]
fn descriptor_modify_clears_then_sets() {
    let mut d = Descriptor::new();
    d.write(1, 0xFFFF_0000);
    d.modify(1, 0x0FF0_0000, 0x0000_00AA);
    assert_eq!(d.words(), &[0, 0xF00F_00AA, 0, 0]);
    d.modify(1, 0x0000_00FF, 0x0000_0011);
    assert_eq!(d.read(1), 0xF00F_0011);
}

#[test]
fn constants_are_the_documented_bits() {
    assert_eq!(RXDESC_0_OWN, 1 << 31);
    assert_eq!(
        RXDESC_0_ERRORS,
        (1 << 15) | (1 << 14) | (1 << 12) | (1 << 11) | (1 << 6) | (1 << 4) | (1 << 3) | (1 << 1)
    );
    assert_eq!(TXDESC_0_SEND, (1 << 31) | (1 << 30) | (1 << 29) | (1 << 28));
    assert_eq!(TXDESC_1_TBS_MASK, (1 << 13) - 1);
    assert_eq!(MTU, 1522);
}

#[test]
fn rx_descriptor_decodes_word_zero() {
    let mut d = RxDescriptor::new();
    assert!(!d.is_owned());
    assert!(!d.has_error());
    assert_eq!(d.get_frame_len(), 0);

    d.desc.write(0, (64 << 16) | (1 << 9) | (1 << 8));
    assert!(!d.is_owned());
    assert!(!d.has_error());
    assert!(d.is_first());
    assert!(d.is_last());
    assert_eq!(d.get_frame_len(), 64);

    d.desc.write(0, 0xFFFF_0000);
    assert!(d.is_owned());
    assert_eq!(d.get_frame_len(), 0x3FFF);
    assert!(!d.has_error());
    assert!(!d.is_first());
    assert!(!d.is_last());
}

#[test]
fn rx_descriptor_decodes_each_error_flag() {
    for bit in [1u32, 3, 4, 6, 11, 12, 14, 15] {
        let mut d = RxDescriptor::new();
        d.desc.write(0, 1 << bit);
        assert!(d.has_error(), "bit {}", bit);
        assert_eq!(d.has_crc_error(), bit == 1);
        assert_eq!(d.has_overflow_error(), bit == 11);
        assert_eq!(d.has_length_error(), bit == 12);
    }
    for bit in [0u32, 2, 5, 7, 8, 9, 10, 13, 16, 30, 31] {
        let mut d = RxDescriptor::new();
        d.desc.write(0, 1 << bit);
        assert!(!d.has_error(), "bit {}", bit);
    }
}

#[test]
fn rx_set_owned_clears_the_status() {
    let mut d = RxDescriptor::new();
    d.desc.write(0, 0x0040_8302);
    d.desc.write(1, 0x0000_45F2);
    d.desc.write(2, 0x2000_0010);
    d.desc.write(3, 0x2000_1000);
    d.set_owned();
    assert_eq!(d.desc.words(), &[0x8000_0000, 0x0000_45F2, 0x2000_0010, 0x2000_1000]);
    assert!(d.is_owned());
    assert!(!d.has_error());
}

#[test]
fn rx_setup_writes_all_four_words() {
    let mut d = RxDescriptor::new();
    d.desc.write(0, 0xFFFF_FFFF);
    d.desc.write(1, 0xFFFF_FFFF);
    d.setup(0x2000_0010, 0x2000_1000, false);
    assert_eq!(d.desc.words(), &[0x8000_0000, 0x0000_45F2, 0x2000_0010, 0x2000_1000]);
    d.setup(0x2000_0010, 0x2000_0000, true);
    assert_eq!(d.desc.words(), &[0x8000_0000, 0x0000_C5F2, 0x2000_0010, 0x2000_0000]);
}

#[test]
fn tx_descriptor_decodes_word_zero() {
    let mut d = TxDescriptor::new();
    assert!(!d.is_owned());
    assert!(!d.has_error());
    d.desc.write(0, (1 << 15) | (1 << 1));
    assert!(d.has_error());
    assert!(d.has_underflow());
    assert!(!d.has_no_carrier());
    d.desc.write(0, (1 << 31) | (1 << 10));
    assert!(d.is_owned());
    assert!(!d.has_error());
    assert!(!d.has_underflow());
    assert!(d.has_no_carrier());
}

#[test]
fn tx_set_owned_writes_length_and_marks() {
    let mut d = TxDescriptor::new();
    d.setup(0x2001_0010, 0x2001_1000, false);
    d.set_owned(1522);
    assert_eq!(d.desc.words(), &[0xF010_0000, 1522, 0x2001_0010, 0x2001_1000]);

    let mut d = TxDescriptor::new();
    d.desc.write(0, 0x0020_8402);
    d.desc.write(1, 0xFFFF_FFFF);
    d.set_owned(60);
    assert_eq!(d.desc.read(0), 0xF020_8402);
    assert_eq!(d.desc.read(1), 0xFFFF_E03C);
}

#[test]
fn tx_setup_keeps_the_entry_with_software() {
    let mut d = TxDescriptor::new();
    d.desc.write(0, 0xFFFF_FFFF);
    d.desc.write(1, 0xFFFF_FFFF);
    d.setup(0x10, 0x20, true);
    assert_eq!(d.desc.words(), &[0x0030_0000, 0, 0x10, 0x20]);
    assert!(!d.is_owned());
}

#[test]
fn new_entries_are_zero_and_with_software() {
    let rx = RxRingEntry::new();
    assert!(!rx.desc.is_owned());
    assert_eq!(rx.as_slice().len(), 1522);
    assert!(rx.as_slice().iter().all(|b| *b == 0));
    let tx = TxRingEntry::new();
    assert!(!tx.desc.is_owned());
    assert_eq!(tx.as_slice().len(), 1522);
    assert!(tx.as_slice().iter().all(|b| *b == 0));
}

#[test]
fn fill_and_queue_hands_over_a_prefix() {
    let mut e = TxRingEntry::new();
    let seen = e.fill_and_queue(4, |buf: &mut [u8]| {
        buf.copy_from_slice(&[1, 2, 3, 4]);
        buf.len()
    });
    assert_eq!(seen, 4);
    assert_eq!(&e.as_slice()[..6], &[1, 2, 3, 4, 0, 0]);
    assert!(e.desc.is_owned());
    assert_eq!(e.desc.desc.read(1), 4);
}
