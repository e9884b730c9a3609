//! The transceiver behind the management bus: which of its registers the
//! driver touches, and what they say about the link.
//!
//! Like the bus it sits on, the transceiver is driven step by step: every
//! method issues one command or reads one finished result.

use vstd::prelude::*;
use crate::regs::Register;
use crate::smi::SMI;

verus! {

/// Basic control register.
pub const PHY_REG_BCR: u8 = 0x00;
/// Basic status register.
pub const PHY_REG_BSR: u8 = 0x01;
/// Special control and status register.
pub const PHY_REG_SSR: u8 = 0x1F;

/// Basic control: restart auto-negotiation.
pub const PHY_REG_BCR_ANRST: u16 = 0x0200;
/// Basic control: auto-negotiation enable.
pub const PHY_REG_BCR_AN: u16 = 0x1000;
/// Basic control: speed select, 100 Mbit/s.
pub const PHY_REG_BCR_100M: u16 = 0x2000;
/// Basic control: software reset.
pub const PHY_REG_BCR_RESET: u16 = 0x8000;
/// Basic control: what starts a negotiation that may end at 100 Mbit/s.
pub const PHY_REG_BCR_AUTONEG: u16 = PHY_REG_BCR_AN | PHY_REG_BCR_ANRST | PHY_REG_BCR_100M;

/// Basic status: link is up.
pub const PHY_REG_BSR_UP: u16 = 0x0004;
/// Basic status: remote fault.
pub const PHY_REG_BSR_FAULT: u16 = 0x0010;

/// Special status: mask of the speed indication.
pub const PHY_REG_SSR_SPEED: u16 = 0x001C;
/// Special status: 10 Mbit/s, half duplex.
pub const PHY_REG_SSR_10BASE_HD: u16 = 0x0004;
/// Special status: 10 Mbit/s, full duplex.
pub const PHY_REG_SSR_10BASE_FD: u16 = 0x0014;
/// Special status: 100 Mbit/s, half duplex.
pub const PHY_REG_SSR_100BASE_HD: u16 = 0x0008;
/// Special status: 100 Mbit/s, full duplex.
pub const PHY_REG_SSR_100BASE_FD: u16 = 0x0018;

/// What the link runs at.
#[derive(Clone, Copy, Debug, PartialEq, Eq, Structural)]
pub enum LinkSpeed {
    /// 10 Mbit/s.
    Mbit10,
    /// 100 Mbit/s.
    Mbit100,
}

/// What the transceiver reports of the link.
#[derive(Clone, Copy, Debug, PartialEq, Eq, Structural)]
pub struct PhyStatus {
    /// Is there a link at all?
    pub link_detected: bool,
    /// Did the far end report a fault?
    pub remote_fault: bool,
    /// Speed of the link, where there is a link and the transceiver says
    /// what it negotiated.
    pub speed: Option<LinkSpeed>,
    /// Is the link full duplex? Known where the speed is known.
    pub full_duplex: Option<bool>,
}

/// The speed that the speed indication of the special status stands for.
pub open spec fn speed_of(ssr: u16) -> Option<LinkSpeed> {
    let code = ssr & PHY_REG_SSR_SPEED;
    if code == PHY_REG_SSR_10BASE_HD || code == PHY_REG_SSR_10BASE_FD {
        Some(LinkSpeed::Mbit10)
    } else if code == PHY_REG_SSR_100BASE_HD || code == PHY_REG_SSR_100BASE_FD {
        Some(LinkSpeed::Mbit100)
    } else {
        None
    }
}

/// The duplex mode that the speed indication of the special status stands
/// for.
pub open spec fn duplex_of(ssr: u16) -> Option<bool> {
    let code = ssr & PHY_REG_SSR_SPEED;
    if code == PHY_REG_SSR_10BASE_FD || code == PHY_REG_SSR_100BASE_FD {
        Some(true)
    } else if code == PHY_REG_SSR_10BASE_HD || code == PHY_REG_SSR_100BASE_HD {
        Some(false)
    } else {
        None
    }
}

/// The status that the two status registers stand for. Without a link
/// there is neither speed nor duplex mode.
pub open spec fn status_of(bsr: u16, ssr: u16) -> PhyStatus {
    let up = bsr & PHY_REG_BSR_UP == PHY_REG_BSR_UP;
    PhyStatus {
        link_detected: up,
        remote_fault: bsr & PHY_REG_BSR_FAULT == PHY_REG_BSR_FAULT,
        speed: if up {
            speed_of(ssr)
        } else {
            None
        },
        full_duplex: if up {
            duplex_of(ssr)
        } else {
            None
        },
    }
}

impl PhyStatus {
    /// Reads the status off the basic status register and the special
    /// status register.
    pub fn decode(bsr: u16, ssr: u16) -> (status: PhyStatus)
        ensures
            status == status_of(bsr, ssr),
    {
        let up = bsr & PHY_REG_BSR_UP == PHY_REG_BSR_UP;
        let remote_fault = bsr & PHY_REG_BSR_FAULT == PHY_REG_BSR_FAULT;
        let code = ssr & PHY_REG_SSR_SPEED;
        let mut speed: Option<LinkSpeed> = None;
        let mut full_duplex: Option<bool> = None;
        if up {
            if code == PHY_REG_SSR_10BASE_HD {
                speed = Some(LinkSpeed::Mbit10);
                full_duplex = Some(false);
            } else if code == PHY_REG_SSR_10BASE_FD {
                speed = Some(LinkSpeed::Mbit10);
                full_duplex = Some(true);
            } else if code == PHY_REG_SSR_100BASE_HD {
                speed = Some(LinkSpeed::Mbit100);
                full_duplex = Some(false);
            } else if code == PHY_REG_SSR_100BASE_FD {
                speed = Some(LinkSpeed::Mbit100);
                full_duplex = Some(true);
            }
        }
        PhyStatus { link_detected: up, remote_fault, speed, full_duplex }
    }
}

/// The transceiver at one address of the management bus.
pub struct Phy {
    pub smi: SMI,
    pub phy: u8,
}

impl Phy {
    /// The transceiver at address `phy`, reached through the two
    /// management registers.
    pub fn new(mac_miiar: Register, mac_miidr: Register, phy: u8) -> (p: Phy)
        ensures
            p.smi.mac_miiar == mac_miiar,
            p.smi.mac_miidr == mac_miidr,
            p.phy == phy,
    {
        Phy { smi: SMI::new(mac_miiar, mac_miidr), phy }
    }

    /// Asks for register `reg` of the transceiver. The result is in the
    /// data register once the bus is no longer busy.
    pub fn request(&mut self, reg: u8)
        ensures
            final(self).phy == old(self).phy,
            final(self).smi.mac_miiar == old(self).smi.command(old(self).phy, reg, false),
            final(self).smi.mac_miidr == old(self).smi.mac_miidr,
    {
        self.smi.read(self.phy, reg);
    }

    /// Resets the transceiver: writes back the basic control register that
    /// a finished request left in the data register, with the reset bit
    /// set. The transceiver drops the bit when it is done.
    pub fn reset(&mut self)
        ensures
            final(self).phy == old(self).phy,
            final(self).smi.mac_miidr == old(self).smi.loaded(
                old(self).smi.data() | PHY_REG_BCR_RESET,
            ),
            final(self).smi.mac_miiar == old(self).smi.command(old(self).phy, PHY_REG_BCR, true),
    {
        self.smi.set_bits(self.phy, PHY_REG_BCR, PHY_REG_BCR_RESET);
    }

    /// Does the basic control register that a finished request left in the
    /// data register still show the reset bit?
    pub fn reset_pending(&self) -> (pending: bool)
        ensures
            pending == (self.smi.data() & PHY_REG_BCR_RESET == PHY_REG_BCR_RESET),
    {
        self.smi.read_data() & PHY_REG_BCR_RESET == PHY_REG_BCR_RESET
    }

    /// Starts auto-negotiation: writes back the basic control register
    /// that a finished request left in the data register, with
    /// auto-negotiation enabled and restarted and 100 Mbit/s selected.
    pub fn set_autoneg(&mut self)
        ensures
            final(self).phy == old(self).phy,
            final(self).smi.mac_miidr == old(self).smi.loaded(
                old(self).smi.data() | PHY_REG_BCR_AUTONEG,
            ),
            final(self).smi.mac_miiar == old(self).smi.command(old(self).phy, PHY_REG_BCR, true),
    {
        self.smi.set_bits(self.phy, PHY_REG_BCR, PHY_REG_BCR_AUTONEG);
    }

    /// The status of the link, from the results of a request for the basic
    /// status register and of one for the special status register.
    pub fn status(&self, bsr: u16, ssr: u16) -> (status: PhyStatus)
        ensures
            status == status_of(bsr, ssr),
    {
        PhyStatus::decode(bsr, ssr)
    }
}

} // verus!
