//! Software images of peripheral registers.
//!
//! The driver never touches the bus. It reads and edits images; whoever owns
//! the bus loads an image before a call and puts the pending write on the
//! bus afterwards.

use vstd::prelude::*;

verus! {

/// The image of one 32-bit register: the value last seen or written, and
/// whether a write waits to be put on the bus.
#[derive(Clone, Copy, Debug, PartialEq, Eq, Structural)]
pub struct Register {
    pub value: u32,
    pub pending: bool,
}

impl Register {
    /// The image after a write of `value`.
    pub open spec fn written(&self, value: u32) -> Register {
        Register { value, pending: true }
    }

    /// The image after one transaction that clears the bits of `clear` and
    /// then sets the bits of `set`.
    pub open spec fn modified(&self, clear: u32, set: u32) -> Register {
        Register { value: (self.value & !clear) | set, pending: true }
    }

    /// The image after one transaction that puts `bits`, cut to the width
    /// mask `mask`, into the field that starts at bit `shift`.
    pub open spec fn with_field(&self, shift: u32, mask: u32, bits: u32) -> Register {
        self.modified(mask << shift, (bits & mask) << shift)
    }

    /// The bits of `mask` are all set.
    pub open spec fn has(&self, mask: u32) -> bool {
        self.value & mask == mask
    }

    /// The field of width mask `mask` that starts at bit `shift`.
    pub open spec fn field(&self, shift: u32, mask: u32) -> u32 {
        (self.value >> shift) & mask
    }

    /// The image of a register that reads `value`, with no write waiting.
    pub fn new(value: u32) -> (r: Register)
        ensures
            r == (Register { value, pending: false }),
    {
        Register { value, pending: false }
    }

    /// Takes in the value that the register reads now. A write that was
    /// waiting is forgotten.
    pub fn load(&mut self, value: u32)
        ensures
            *final(self) == (Register { value, pending: false }),
    {
        self.value = value;
        self.pending = false;
    }

    /// The value of the image.
    pub fn read(&self) -> (value: u32)
        ensures
            value == self.value,
    {
        self.value
    }

    /// Are the bits of `mask` all set?
    pub fn read_bit(&self, mask: u32) -> (b: bool)
        ensures
            b == self.has(mask),
    {
        self.value & mask == mask
    }

    /// Reads the field of width mask `mask` that starts at bit `shift`.
    pub fn read_field(&self, shift: u32, mask: u32) -> (v: u32)
        requires
            shift < 32,
        ensures
            v == self.field(shift, mask),
    {
        (self.value >> shift) & mask
    }

    /// Replaces the whole value.
    pub fn write(&mut self, value: u32)
        ensures
            *final(self) == old(self).written(value),
    {
        self.value = value;
        self.pending = true;
    }

    /// Applies a set of field changes in one transaction: the bits of
    /// `clear` are cleared, then the bits of `set` are set.
    pub fn modify(&mut self, clear: u32, set: u32)
        ensures
            *final(self) == old(self).modified(clear, set),
    {
        self.value = (self.value & !clear) | set;
        self.pending = true;
    }

    /// Puts `bits` into the field of width mask `mask` that starts at bit
    /// `shift`. Bits of `bits` beyond the width are dropped.
    pub fn write_field(&mut self, shift: u32, mask: u32, bits: u32)
        requires
            shift < 32,
        ensures
            *final(self) == old(self).with_field(shift, mask, bits),
    {
        self.modify(mask << shift, (bits & mask) << shift);
    }

    /// Hands out the write that waits, if there is one, and marks the image
    /// as clean.
    pub fn take_write(&mut self) -> (w: Option<u32>)
        ensures
            w == if old(self).pending { Some(old(self).value) } else { None::<u32> },
            *final(self) == (Register { value: old(self).value, pending: false }),
    {
        if self.pending {
            self.pending = false;
            Some(self.value)
        } else {
            None
        }
    }
}

/// A write of the same value twice leaves the image as one write does:
/// the second demand for a poll adds nothing to the first.
pub proof fn lemma_write_is_idempotent(r: Register, value: u32)
    ensures
        r.written(value).written(value) == r.written(value),
{
}

} // verus!
