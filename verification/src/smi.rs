//! Station management: the two registers through which the transceiver's
//! own registers are read and written.
//!
//! Every method is one step of a bus transaction. Between a command and
//! its result somebody has to put the command on the bus and wait until
//! the busy flag drops.

use vstd::prelude::*;
use crate::regs::Register;

verus! {

/// Address register: a transaction is under way.
pub const MACMIIAR_MB: u32 = 0x0000_0001;
/// Address register: the transaction is a write.
pub const MACMIIAR_MW: u32 = 0x0000_0002;
/// Address register: position of the transceiver register number.
pub const MACMIIAR_MR_SHIFT: u32 = 6;
/// Address register: position of the transceiver address.
pub const MACMIIAR_PA_SHIFT: u32 = 11;
/// Address register: width mask of both five-bit fields.
pub const MACMIIAR_ADDR_MASK: u32 = 0x1F;
/// Data register: width mask of the data field.
pub const MACMIIDR_TD_MASK: u32 = 0xFFFF;

/// Station Management Interface
pub struct SMI {
    pub mac_miiar: Register,
    pub mac_miidr: Register,
}

impl SMI {
    /// The address register with a command for register `reg` of the
    /// transceiver at `phy`: a write if `write`, else a read, and the busy
    /// flag raised.
    pub open spec fn command(&self, phy: u8, reg: u8, write: bool) -> Register {
        let addressed = self.mac_miiar.with_field(
            MACMIIAR_PA_SHIFT,
            MACMIIAR_ADDR_MASK,
            phy as u32,
        ).with_field(MACMIIAR_MR_SHIFT, MACMIIAR_ADDR_MASK, reg as u32);
        if write {
            addressed.modified(0, MACMIIAR_MW).modified(0, MACMIIAR_MB)
        } else {
            addressed.modified(MACMIIAR_MW, 0).modified(0, MACMIIAR_MB)
        }
    }

    /// The data register holding `data`.
    pub open spec fn loaded(&self, data: u16) -> Register {
        self.mac_miidr.with_field(0, MACMIIDR_TD_MASK, data as u32)
    }

    /// The data that the data register holds.
    pub open spec fn data(&self) -> u16 {
        (self.mac_miidr.value & MACMIIDR_TD_MASK) as u16
    }

    /// Allocate
    pub fn new(mac_miiar: Register, mac_miidr: Register) -> (smi: SMI)
        ensures
            smi.mac_miiar == mac_miiar,
            smi.mac_miidr == mac_miidr,
    {
        SMI { mac_miiar, mac_miidr }
    }

    /// Is a transaction still under way?
    pub fn is_busy(&self) -> (busy: bool)
        ensures
            busy == self.mac_miiar.has(MACMIIAR_MB),
    {
        self.mac_miiar.read_bit(MACMIIAR_MB)
    }

    /// The result of a read that has finished.
    pub fn read_data(&self) -> (data: u16)
        ensures
            data == self.data(),
    {
        let value = self.mac_miidr.read();
        assert(value & MACMIIDR_TD_MASK <= 0xFFFF) by (bit_vector);
        (value & MACMIIDR_TD_MASK) as u16
    }

    /// Read an SMI register: issues the command. The result is in the data
    /// register once the busy flag has dropped.
    pub fn read(&mut self, phy: u8, reg: u8)
        ensures
            final(self).mac_miiar == old(self).command(phy, reg, false),
            final(self).mac_miidr == old(self).mac_miidr,
    {
        self.mac_miiar.write_field(MACMIIAR_PA_SHIFT, MACMIIAR_ADDR_MASK, phy as u32);
        self.mac_miiar.write_field(MACMIIAR_MR_SHIFT, MACMIIAR_ADDR_MASK, reg as u32);
        self.mac_miiar.modify(MACMIIAR_MW, 0);
        self.mac_miiar.modify(0, MACMIIAR_MB);
    }

    /// Puts `data` into the data register.
    pub fn write_data(&mut self, data: u16)
        ensures
            final(self).mac_miidr == old(self).loaded(data),
            final(self).mac_miiar == old(self).mac_miiar,
    {
        self.mac_miidr.write_field(0, MACMIIDR_TD_MASK, data as u32);
    }

    /// Write an SMI register: loads the data and issues the command.
    pub fn write(&mut self, phy: u8, reg: u8, data: u16)
        ensures
            final(self).mac_miidr == old(self).loaded(data),
            final(self).mac_miiar == old(self).command(phy, reg, true),
    {
        self.write_data(data);
        self.mac_miiar.write_field(MACMIIAR_PA_SHIFT, MACMIIAR_ADDR_MASK, phy as u32);
        self.mac_miiar.write_field(MACMIIAR_MR_SHIFT, MACMIIAR_ADDR_MASK, reg as u32);
        self.mac_miiar.modify(0, MACMIIAR_MW);
        self.mac_miiar.modify(0, MACMIIAR_MB);
    }

    /// Helper: writes back the value that a finished read of `reg` left in
    /// the data register, OR-ed with `mask`.
    pub fn set_bits(&mut self, phy: u8, reg: u8, mask: u16)
        ensures
            final(self).mac_miidr == old(self).loaded(old(self).data() | mask),
            final(self).mac_miiar == old(self).command(phy, reg, true),
    {
        let value = self.read_data();
        self.write(phy, reg, value | mask);
    }
}

} // verus!
