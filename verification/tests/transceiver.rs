use stm32_eth::{EntryAddress, Eth, LinkSpeed, Phy, PhyStatus, Register, RxRingEntry, TxRingEntry};

fn written(value: u32) -> Register {
    Register { value, pending: true }
}

#[test]
fn status_without_link() {
    let s = PhyStatus::decode(0x0000, 0x0018);
    assert_eq!(
        s,
        PhyStatus { link_detected: false, remote_fault: false, speed: None, full_duplex: None }
    );
    let s = PhyStatus::decode(0xFFFB, 0xFFFF);
    assert!(!s.link_detected);
    assert!(s.remote_fault);
    assert_eq!(s.speed, None);
    assert_eq!(s.full_duplex, None);
}

#[test]
fn status_decodes_each_speed() {
    let cases = [
        (0b001u16, Some(LinkSpeed::Mbit10), Some(false)),
        (0b101, Some(LinkSpeed::Mbit10), Some(true)),
        (0b010, Some(LinkSpeed::Mbit100), Some(false)),
        (0b110, Some(LinkSpeed::Mbit100), Some(true)),
        (0b000, None, None),
        (0b011, None, None),
        (0b100, None, None),
        (0b111, None, None),
    ];
    for (code, speed, duplex) in cases {
        let s = PhyStatus::decode(0x0004, (code << 2) | 0x1003);
        assert!(s.link_detected);
        assert!(!s.remote_fault);
        assert_eq!(s.speed, speed, "code {}", code);
        assert_eq!(s.full_duplex, duplex, "code {}", code);
    }
}

#[test]
fn status_reports_a_remote_fault() {
    let s = PhyStatus::decode(0x0014, 0x0018);
    assert_eq!(
        s,
        PhyStatus {
            link_detected: true,
            remote_fault: true,
            speed: Some(LinkSpeed::Mbit100),
            full_duplex: Some(true),
        }
    );
}

#[test]
fn phy_requests_a_register_at_its_address() {
    let mut phy = Phy::new(Register::new(0x0000_0008), Register::new(0), 3);
    phy.request(1);
    assert_eq!(phy.smi.mac_miiar, written((3 << 11) | (1 << 6) | 0x8 | 1));
    assert_eq!(phy.smi.mac_miidr, Register::new(0));
    assert_eq!(phy.phy, 3);
}

#[test]
fn phy_reset_writes_control_with_the_reset_bit() {
    let mut phy = Phy::new(Register::new(0), Register::new(0x0000_3100), 0);
    assert!(!phy.reset_pending());
    phy.reset();
    assert_eq!(phy.smi.mac_miidr, written(0x0000_B100));
    assert_eq!(phy.smi.mac_miiar, written(0x0000_0003));
    assert!(phy.reset_pending());
    phy.smi.mac_miidr.load(0x0000_3100);
    assert!(!phy.reset_pending());
}

#[test]
fn phy_autoneg_writes_control_with_three_bits() {
    let mut phy = Phy::new(Register::new(0), Register::new(0x0000_0100), 1);
    phy.set_autoneg();
    assert_eq!(phy.smi.mac_miidr, written(0x0000_3300));
    assert_eq!(phy.smi.mac_miiar, written((1 << 11) | 0x3));
}

#[test]
fn driver_hands_out_the_transceiver_at_address_zero() {
    let r = Register::new(0);
    let layout = vec![EntryAddress { descriptor: 0x10, buffer: 0x20 }];
    let eth = Eth::new(
        r,
        Register::new(0xABCD),
        r,
        r,
        r,
        r,
        r,
        r,
        r,
        r,
        r,
        r,
        r,
        vec![RxRingEntry::new()],
        &layout,
        vec![TxRingEntry::new()],
        &layout,
    );
    let phy = eth.get_phy();
    assert_eq!(phy.phy, 0);
    assert_eq!(phy.smi.mac_miiar, eth.mac_miiar);
    assert_eq!(phy.smi.mac_miidr, Register::new(0xABCD));
    assert_eq!(phy.status(0x0004, 0x0018), PhyStatus::decode(0x0004, 0x0018));
    assert_eq!(eth.status(0x0004, 0x0014).speed, Some(LinkSpeed::Mbit10));
    assert_eq!(eth.status(0x0004, 0x0014).full_duplex, Some(true));
    assert!(!eth.status(0x0000, 0x0014).link_detected);
}
