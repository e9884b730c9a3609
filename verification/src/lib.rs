//! Descriptor rings for the Ethernet MAC and DMA block of STM32 parts.
//!
//! The rings hand frames between software and the DMA engine without
//! copying them. The one thing the two sides share is the ownership bit of
//! each descriptor: whoever owns an entry may read and write it, the other
//! side keeps off. Nothing here blocks: a call either does its work at
//! once or says that it cannot.
//!
//! The driver works on images of the peripheral registers. Whoever owns the
//! bus loads the images before a call and puts the pending writes on the
//! bus afterwards.

use vstd::prelude::*;

mod barrier;
pub mod desc;
pub mod eth;
pub mod phy;
pub mod regs;
pub mod ring;
pub mod rx;
pub mod setup;
pub mod smi;
pub mod token;
pub mod tx;

pub use desc::{Descriptor, Owner};
pub use eth::{eth_interrupt_handler, BusWrite, Eth, Reg};
pub use phy::{LinkSpeed, Phy, PhyStatus};
pub use regs::Register;
pub use ring::{EntryAddress, RunningState};
pub use rx::{RxDescriptor, RxError, RxPacket, RxRing, RxRingEntry};
pub use setup::{setup, setup_pins};
pub use smi::SMI;
pub use token::{EthRxToken, EthTxToken};
pub use tx::{TxDescriptor, TxError, TxRing, TxRingEntry};

verus! {

/// Largest frame, in bytes, that one ring entry can hold: a full frame with
/// a VLAN tag.
pub const MTU: usize = 1522;

} // verus!
