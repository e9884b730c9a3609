//! The receive side: descriptor format, ring entries and the polling ring.

use vstd::prelude::*;
use vstd::slice::slice_subrange;
use vstd::arithmetic::div_mod::lemma_small_mod;
use crate::barrier::write_barrier;
use crate::desc::{Descriptor, Owner};
use crate::regs::Register;
use crate::ring::{
    lemma_cyclic_order, next_index, successor, EntryAddress, RunningState, POLL_DEMAND,
};
use crate::MTU;

verus! {

/// Word 0: the engine owns the descriptor.
pub const RXDESC_0_OWN: u32 = 0x8000_0000;
/// Word 0: position of the frame length field.
pub const RXDESC_0_FL_SHIFT: u32 = 16;
/// Word 0: width mask of the frame length field, after shifting.
pub const RXDESC_0_FL_MASK: u32 = 0x3FFF;
/// Word 0: error summary.
pub const RXDESC_0_ES: u32 = 0x0000_8000;
/// Word 0: descriptor error.
pub const RXDESC_0_DE: u32 = 0x0000_4000;
/// Word 0: length error.
pub const RXDESC_0_LE: u32 = 0x0000_1000;
/// Word 0: overflow error.
pub const RXDESC_0_OE: u32 = 0x0000_0800;
/// Word 0: first segment of a frame.
pub const RXDESC_0_FS: u32 = 0x0000_0200;
/// Word 0: last segment of a frame.
pub const RXDESC_0_LS: u32 = 0x0000_0100;
/// Word 0: late collision.
pub const RXDESC_0_LCO: u32 = 0x0000_0040;
/// Word 0: receive watchdog timeout.
pub const RXDESC_0_RWT: u32 = 0x0000_0010;
/// Word 0: receive error.
pub const RXDESC_0_RE: u32 = 0x0000_0008;
/// Word 0: CRC error.
pub const RXDESC_0_CE: u32 = 0x0000_0002;
/// Word 0: every flag that marks a damaged frame.
pub const RXDESC_0_ERRORS: u32 = RXDESC_0_ES | RXDESC_0_DE | RXDESC_0_LE | RXDESC_0_OE | RXDESC_0_LCO
    | RXDESC_0_RWT | RXDESC_0_RE | RXDESC_0_CE;
/// Word 1: last descriptor of the ring.
pub const RXDESC_1_RER: u32 = 0x0000_8000;
/// Word 1: word 3 holds the address of the next descriptor.
pub const RXDESC_1_RCH: u32 = 0x0000_4000;
/// Word 1: mask of the buffer size field.
pub const RXDESC_1_RBS_MASK: u32 = 0x0000_1FFF;

/// Operation mode register: start or stop receive.
pub const DMAOMR_SR: u32 = 0x0000_0002;
/// Status register: position of the receive process state.
pub const DMASR_RPS_SHIFT: u32 = 17;
/// Status register: width mask of the receive process state, after shifting.
pub const DMASR_RPS_MASK: u32 = 0x7;

/// Why no frame was handed out.
#[derive(Clone, Copy, Debug, PartialEq, Eq, Structural)]
pub enum RxError {
    /// The entry at the cursor still belongs to the engine.
    WouldBlock,
    /// The engine marked the frame damaged, or declared a length that the
    /// buffer cannot hold.
    Corrupted,
}

/// A receive descriptor.
pub struct RxDescriptor {
    pub desc: Descriptor,
}

impl RxDescriptor {
    /// Word `n` of the descriptor.
    pub open spec fn word(&self, n: int) -> u32 {
        self.desc.word(n)
    }

    /// The owner, read off the ownership bit and nothing else.
    pub open spec fn owner(&self) -> Owner {
        if self.word(0) & RXDESC_0_OWN == RXDESC_0_OWN {
            Owner::Dma
        } else {
            Owner::Cpu
        }
    }

    /// The status flags of `mask` are all set.
    pub open spec fn flag(&self, mask: u32) -> bool {
        self.word(0) & mask == mask
    }

    /// One of the error flags is set.
    pub open spec fn damaged(&self) -> bool {
        self.word(0) & RXDESC_0_ERRORS != 0
    }

    /// The length that the engine declared for the frame.
    pub open spec fn frame_length(&self) -> nat {
        ((self.word(0) >> RXDESC_0_FL_SHIFT) & RXDESC_0_FL_MASK) as nat
    }

    /// Software owns the descriptor and it describes a sound frame that
    /// fits the buffer.
    pub open spec fn holds_frame(&self) -> bool {
        &&& self.owner() == Owner::Cpu
        &&& !self.damaged()
        &&& 0 < self.frame_length() <= MTU
    }

    /// The descriptor after software has handed it back: word 0 holds the
    /// ownership bit alone, the other words are as before.
    pub open spec fn released(&self) -> RxDescriptor {
        RxDescriptor { desc: self.desc.updated(0, RXDESC_0_OWN) }
    }

    /// The descriptor that `setup` leaves: owned by the engine, with the
    /// buffer address and size, chained to the descriptor at `next`, and
    /// marked as the end of the ring if it is the last.
    pub open spec fn armed(buffer: u32, next: u32, last: bool) -> RxDescriptor {
        RxDescriptor {
            desc: Descriptor::from_words(
                RXDESC_0_OWN,
                if last {
                    RXDESC_1_RCH | RXDESC_1_RER | (MTU as u32)
                } else {
                    RXDESC_1_RCH | (MTU as u32)
                },
                buffer,
                next,
            ),
        }
    }

    /// A descriptor with every word zero; software owns it.
    pub fn new() -> (d: RxDescriptor)
        ensures
            d.desc@ == seq![0u32, 0u32, 0u32, 0u32],
            d.owner() == Owner::Cpu,
    {
        let d = RxDescriptor { desc: Descriptor::new() };
        assert(0u32 & RXDESC_0_OWN != RXDESC_0_OWN) by (bit_vector);
        d
    }

    /// Does the engine own the descriptor?
    pub fn is_owned(&self) -> (b: bool)
        ensures
            b == (self.owner() == Owner::Dma),
    {
        (self.desc.read(0) & RXDESC_0_OWN) == RXDESC_0_OWN
    }

    /// Hands the descriptor to the engine and clears the status it left.
    pub fn set_owned(&mut self)
        ensures
            *final(self) == old(self).released(),
    {
        write_barrier();
        self.desc.write(0, RXDESC_0_OWN);
    }

    /// At any instant a descriptor has exactly one owner, and the ownership
    /// bit alone says which: the engine if the bit is set, software if not.
    pub proof fn lemma_one_owner(&self)
        ensures
            (self.owner() == Owner::Dma) != (self.owner() == Owner::Cpu),
            self.owner() == Owner::Dma <==> self.word(0) & RXDESC_0_OWN != 0,
    {
        let w = self.word(0);
        assert(w & RXDESC_0_OWN == RXDESC_0_OWN <==> w & RXDESC_0_OWN != 0) by (bit_vector);
    }

    /// A frame with the CRC error flag counts as damaged.
    pub proof fn lemma_crc_error_is_error(&self)
        requires
            self.flag(RXDESC_0_CE),
        ensures
            self.damaged(),
            !self.holds_frame(),
    {
        let w = self.word(0);
        assert(w & RXDESC_0_CE == RXDESC_0_CE ==> w & RXDESC_0_ERRORS != 0) by (bit_vector);
    }

    /// A released descriptor belongs to the engine, and only word 0 differs
    /// from what it was.
    pub proof fn lemma_released(&self)
        ensures
            self.released().owner() == Owner::Dma,
            self.released().desc@ == self.desc@.update(0, RXDESC_0_OWN),
    {
        self.desc.lemma_len();
        self.desc.lemma_updated(0, RXDESC_0_OWN);
        assert(RXDESC_0_OWN & RXDESC_0_OWN == RXDESC_0_OWN) by (bit_vector);
    }

    /// Did the engine flag the frame as damaged in any way?
    pub fn has_error(&self) -> (b: bool)
        ensures
            b == self.damaged(),
    {
        (self.desc.read(0) & RXDESC_0_ERRORS) != 0
    }

    /// Did the frame fail its CRC?
    pub fn has_crc_error(&self) -> (b: bool)
        ensures
            b == self.flag(RXDESC_0_CE),
    {
        (self.desc.read(0) & RXDESC_0_CE) == RXDESC_0_CE
    }

    /// Does the length of the frame differ from what its header says?
    pub fn has_length_error(&self) -> (b: bool)
        ensures
            b == self.flag(RXDESC_0_LE),
    {
        (self.desc.read(0) & RXDESC_0_LE) == RXDESC_0_LE
    }

    /// Was the frame damaged because the receive FIFO overflowed?
    pub fn has_overflow_error(&self) -> (b: bool)
        ensures
            b == self.flag(RXDESC_0_OE),
    {
        (self.desc.read(0) & RXDESC_0_OE) == RXDESC_0_OE
    }

    /// Does the descriptor hold the first segment of a frame?
    pub fn is_first(&self) -> (b: bool)
        ensures
            b == self.flag(RXDESC_0_FS),
    {
        (self.desc.read(0) & RXDESC_0_FS) == RXDESC_0_FS
    }

    /// Does the descriptor hold the last segment of a frame?
    pub fn is_last(&self) -> (b: bool)
        ensures
            b == self.flag(RXDESC_0_LS),
    {
        (self.desc.read(0) & RXDESC_0_LS) == RXDESC_0_LS
    }

    /// The frame length that the engine wrote into word 0.
    pub fn get_frame_len(&self) -> (len: usize)
        ensures
            len == self.frame_length(),
            len <= 0x3FFF,
    {
        let w = self.desc.read(0);
        assert((w >> RXDESC_0_FL_SHIFT) & RXDESC_0_FL_MASK <= 0x3FFF) by (bit_vector);
        ((w >> RXDESC_0_FL_SHIFT) & RXDESC_0_FL_MASK) as usize
    }

    /// Prepares the descriptor for the engine: buffer address and size, the
    /// address of the descriptor that follows, the ring-end marker on the
    /// last one, and ownership to the engine.
    pub fn setup(&mut self, buffer: u32, next: u32, last: bool)
        ensures
            *final(self) == Self::armed(buffer, next, last),
    {
        let control: u32 = if last {
            RXDESC_1_RCH | RXDESC_1_RER | (MTU as u32)
        } else {
            RXDESC_1_RCH | (MTU as u32)
        };
        self.desc.write(2, buffer);
        self.desc.write(3, next);
        self.desc.write(1, control);
        write_barrier();
        self.desc.write(0, RXDESC_0_OWN);
        proof {
            let target = Self::armed(buffer, next, last);
            old(self).desc.lemma_len();
            Descriptor::lemma_from_words(RXDESC_0_OWN, control, buffer, next);
            assert(self.desc@ =~= target.desc@);
            self.desc.lemma_same_words(&target.desc);
        }
    }
}

/// One slot of the receive ring: a descriptor and the buffer it points at.
pub struct RxRingEntry {
    pub desc: RxDescriptor,
    pub buffer: [u8; MTU],
}

impl RxRingEntry {
    /// The entry after software has handed it back to the engine: the
    /// descriptor is released and the buffer is as it was.
    pub open spec fn released(&self) -> RxRingEntry {
        RxRingEntry { desc: self.desc.released(), buffer: self.buffer }
    }

    /// A zeroed entry, owned by software.
    pub fn new() -> (e: RxRingEntry)
        ensures
            e.desc.desc@ == seq![0u32, 0u32, 0u32, 0u32],
            e.desc.owner() == Owner::Cpu,
            forall|i: int| 0 <= i < MTU ==> e.buffer@[i] == 0u8,
    {
        RxRingEntry { desc: RxDescriptor::new(), buffer: [0u8; MTU] }
    }

    /// The bytes of the buffer.
    pub fn as_slice(&self) -> (s: &[u8])
        ensures
            s@ == self.buffer@,
    {
        self.buffer.as_slice()
    }
}

/// A received frame, borrowed from the entry that holds it.
///
/// While the packet lives, the entry stays with software; `free` hands it
/// back to the engine.
pub struct RxPacket<'a> {
    pub entry: &'a mut RxRingEntry,
    pub length: usize,
}

impl<'a> RxPacket<'a> {
    /// The declared length fits the buffer.
    pub open spec fn wf(&self) -> bool {
        0 < self.length <= MTU
    }

    /// The bytes of the frame.
    pub open spec fn bytes(&self) -> Seq<u8> {
        self.entry.buffer@.subrange(0, self.length as int)
    }

    /// Number of bytes in the frame.
    pub fn len(&self) -> (n: usize)
        ensures
            n == self.length,
    {
        self.length
    }

    /// The frame, read in place.
    pub fn as_slice(&self) -> (s: &[u8])
        requires
            self.wf(),
        ensures
            s@ == self.bytes(),
    {
        slice_subrange(self.entry.buffer.as_slice(), 0, self.length)
    }

    /// Ends the borrow and hands the entry back to the engine.
    pub fn free(self)
        ensures
            *final(self.entry) == old(self.entry).released(),
    {
        self.entry.desc.set_owned();
    }
}

/// The state that the receive process state field `rps` stands for.
pub open spec fn rx_state(rps: u32) -> RunningState {
    if rps == 0 {
        RunningState::Stopped
    } else if rps == 1 || rps == 3 || rps == 5 || rps == 7 {
        RunningState::Running
    } else if rps == 4 {
        RunningState::Suspended
    } else {
        RunningState::Unknown
    }
}

/// The receive ring: a fixed array of entries and the cursor of the next
/// entry that software will look at.
pub struct RxRing {
    entries: Vec<RxRingEntry>,
    next_entry: usize,
}

impl RxRing {
    #[verifier::type_invariant]
    spec fn inv(self) -> bool {
        self.next_entry < self.entries@.len()
    }

    /// The entries, in ring order.
    pub closed spec fn entries(&self) -> Seq<RxRingEntry> {
        self.entries@
    }

    /// Index of the entry that software inspects next.
    pub closed spec fn cursor(&self) -> int {
        self.next_entry as int
    }

    /// The entry at the cursor.
    pub open spec fn head(&self) -> RxRingEntry {
        self.entries()[self.cursor()]
    }

    /// The cursor points at an entry. Every ring that exists at run time
    /// is well formed.
    pub open spec fn wf(&self) -> bool {
        0 <= self.cursor() < self.entries().len()
    }

    /// A ring over `entries`, with the cursor at the first.
    pub fn new(entries: Vec<RxRingEntry>) -> (ring: RxRing)
        requires
            entries@.len() > 0,
        ensures
            ring.wf(),
            ring.entries() == entries@,
            ring.cursor() == 0,
    {
        RxRing { entries, next_entry: 0 }
    }

    /// Number of entries.
    pub fn len(&self) -> (n: usize)
        ensures
            self.wf(),
            n == self.entries().len(),
    {
        proof {
            use_type_invariant(self);
        }
        self.entries.len()
    }

    /// The entry at `index`, for whoever plays the part of the engine.
    pub fn entry(&self, index: usize) -> (e: &RxRingEntry)
        requires
            index < self.entries().len(),
        ensures
            *e == self.entries()[index as int],
    {
        &self.entries[index]
    }

    /// The entry at `index`, open to change, for whoever plays the part of
    /// the engine. The ring takes whatever is written.
    pub fn entry_mut(&mut self, index: usize) -> (e: &mut RxRingEntry)
        requires
            index < old(self).entries().len(),
        ensures
            *e == old(self).entries()[index as int],
            final(self).entries() == old(self).entries().update(index as int, *final(e)),
            final(self).cursor() == old(self).cursor(),
    {
        proof {
            use_type_invariant(&*self);
        }
        &mut self.entries[index]
    }

    /// Index of the entry that software inspects next.
    pub fn next_entry(&self) -> (at: usize)
        ensures
            self.wf(),
            at == self.cursor(),
    {
        proof {
            use_type_invariant(self);
        }
        self.next_entry
    }

    /// The entries as `start` leaves them: every descriptor armed with its
    /// buffer and with the address of the descriptor that follows it, the
    /// last one marked as the end of the ring and linked to the first.
    pub open spec fn armed_from(entries: Seq<RxRingEntry>, layout: Seq<EntryAddress>) -> Seq<RxRingEntry> {
        Seq::new(
            entries.len(),
            |i: int|
                RxRingEntry {
                    desc: RxDescriptor::armed(
                        layout[i].buffer,
                        layout[successor(i, entries.len() as int)].descriptor,
                        i + 1 == entries.len(),
                    ),
                    buffer: entries[i].buffer,
                },
        )
    }

    /// This ring's entries as `start` leaves them.
    pub open spec fn armed(&self, layout: Seq<EntryAddress>) -> Seq<RxRingEntry> {
        Self::armed_from(self.entries(), layout)
    }

    /// Hands every entry to the engine and starts the receive process:
    /// links the descriptors into a circle, puts the cursor on the first,
    /// writes the address of the first descriptor to the list address
    /// register, sets the start bit and demands a poll.
    pub fn start(
        &mut self,
        layout: &Vec<EntryAddress>,
        dma_rpdr: &mut Register,
        dma_rdlar: &mut Register,
        dma_omr: &mut Register,
    )
        requires
            layout@.len() == old(self).entries().len(),
        ensures
            final(self).wf(),
            final(self).entries() == old(self).armed(layout@),
            final(self).cursor() == 0,
            *final(dma_rdlar) == old(dma_rdlar).written(layout@[0].descriptor),
            *final(dma_omr) == old(dma_omr).modified(0, DMAOMR_SR),
            *final(dma_rpdr) == old(dma_rpdr).written(POLL_DEMAND),
    {
        proof {
            use_type_invariant(&*self);
        }
        let n = self.entries.len();
        let mut i: usize = 0;
        while i < n
            invariant
                n == self.entries@.len(),
                n == layout@.len(),
                n == old(self).entries@.len(),
                0 <= i <= n,
                self.next_entry < n,
                forall|k: int| 0 <= k < i ==> self.entries@[k] == old(self).armed(layout@)[k],
                forall|k: int| i <= k < n ==> self.entries@[k] == old(self).entries@[k],
            decreases n - i,
        {
            let next = next_index(i, n);
            let address = layout[i];
            let following = layout[next];
            self.entries[i].desc.setup(address.buffer, following.descriptor, i + 1 == n);
            i = i + 1;
        }
        self.next_entry = 0;
        assert(self.entries@ =~= old(self).armed(layout@));
        dma_rdlar.write(layout[0].descriptor);
        dma_omr.modify(0, DMAOMR_SR);
        self.demand_poll(dma_rpdr);
    }

    /// Wakes a parked receive process. Any number of calls leaves the
    /// register as one call does.
    pub fn demand_poll(&self, dma_rpdr: &mut Register)
        ensures
            *final(dma_rpdr) == old(dma_rpdr).written(POLL_DEMAND),
    {
        dma_rpdr.write(POLL_DEMAND);
    }

    /// What the receive process is doing, read off the status register.
    pub fn running_state(&self, dma_sr: &Register) -> (state: RunningState)
        ensures
            state == rx_state(dma_sr.field(DMASR_RPS_SHIFT, DMASR_RPS_MASK)),
    {
        let rps = dma_sr.read_field(DMASR_RPS_SHIFT, DMASR_RPS_MASK);
        if rps == 0 {
            RunningState::Stopped
        } else if rps == 1 || rps == 3 || rps == 5 || rps == 7 {
            RunningState::Running
        } else if rps == 4 {
            RunningState::Suspended
        } else {
            RunningState::Unknown
        }
    }

    /// How `recv_next` ends: refused while the engine still owns the entry
    /// at the cursor, refused as corrupted when the entry holds no sound
    /// frame, a packet otherwise.
    pub open spec fn recv_outcome(&self) -> Result<(), RxError> {
        if self.head().desc.owner() == Owner::Dma {
            Err(RxError::WouldBlock)
        } else if !self.head().desc.holds_frame() {
            Err(RxError::Corrupted)
        } else {
            Ok(())
        }
    }

    /// `after` is this ring with the entry at the cursor replaced by
    /// `entry`, every other entry as it was, and the cursor one entry on.
    pub open spec fn passed(&self, after: &RxRing, entry: RxRingEntry) -> bool {
        &&& after.entries() == self.entries().update(self.cursor(), entry)
        &&& after.cursor() == successor(self.cursor(), self.entries().len() as int)
    }

    /// Takes the frame at the cursor, if the engine has finished one.
    ///
    /// A receive process that is not at work is told to poll first. While
    /// the engine still owns the entry at the cursor, nothing else changes.
    /// An entry that the engine gave back damaged, empty or with a length
    /// that no buffer holds goes straight back to the engine and the cursor
    /// moves on. A sound frame is lent out as a packet over the first
    /// `length` bytes of the buffer, and the cursor moves on; the entry
    /// stays with software until the packet is freed.
    pub fn recv_next<'a>(&'a mut self, dma_rpdr: &mut Register, dma_sr: &Register) -> (r: Result<
        RxPacket<'a>,
        RxError,
    >)
        ensures
            old(self).wf(),
            final(self).wf(),
            *final(dma_rpdr) == if rx_state(dma_sr.field(DMASR_RPS_SHIFT, DMASR_RPS_MASK))
                == RunningState::Running {
                *old(dma_rpdr)
            } else {
                old(dma_rpdr).written(POLL_DEMAND)
            },
            match r {
                Ok(packet) => {
                    &&& old(self).recv_outcome() is Ok
                    &&& packet.wf()
                    &&& packet.length == old(self).head().desc.frame_length()
                    &&& *packet.entry == old(self).head()
                    &&& old(self).passed(final(self), *final(packet.entry))
                },
                Err(RxError::WouldBlock) => {
                    &&& old(self).recv_outcome() == Err::<(), RxError>(RxError::WouldBlock)
                    &&& *final(self) == *old(self)
                },
                Err(RxError::Corrupted) => {
                    &&& old(self).recv_outcome() == Err::<(), RxError>(RxError::Corrupted)
                    &&& old(self).passed(final(self), old(self).head().released())
                },
            },
    {
        proof {
            use_type_invariant(&*self);
        }
        if !self.running_state(dma_sr).is_running() {
            self.demand_poll(dma_rpdr);
        }
        let n = self.entries.len();
        let at = self.next_entry;
        if self.entries[at].desc.is_owned() {
            return Err(RxError::WouldBlock);
        }
        self.next_entry = next_index(at, n);
        let entry = &mut self.entries[at];
        let length = entry.desc.get_frame_len();
        if entry.desc.has_error() || length == 0 || length > MTU {
            entry.desc.set_owned();
            return Err(RxError::Corrupted);
        }
        Ok(RxPacket { entry, length })
    }
}

/// `before` and `after` are the rings around a series of calls that
/// passed an entry, sound or corrupted; `entries` are the entries as each
/// call left them. Between two calls the engine may do to the entries what
/// it likes; it has no way to move the cursor or to change the number of
/// entries.
pub open spec fn recv_series(before: Seq<RxRing>, after: Seq<RxRing>, entries: Seq<RxRingEntry>) -> bool {
    &&& before.len() == entries.len()
    &&& after.len() == entries.len()
    &&& forall|k: int|
        0 <= k < entries.len() ==> {
            &&& before[k].wf()
            &&& before[k].passed(&after[k], #[trigger] entries[k])
        }
    &&& forall|k: int|
        0 <= k < entries.len() - 1 ==> {
            &&& before[k + 1].cursor() == (#[trigger] after[k]).cursor()
            &&& before[k + 1].entries().len() == after[k].entries().len()
        }
}

/// However many entries are passed, the cursor visits them in cyclic
/// order: call number `k` looks at entry `(start + k) % N`, where `start`
/// is the cursor before the first call.
pub proof fn lemma_receives_in_cyclic_order(
    before: Seq<RxRing>,
    after: Seq<RxRing>,
    entries: Seq<RxRingEntry>,
    k: int,
)
    requires
        recv_series(before, after, entries),
        0 <= k < entries.len(),
    ensures
        before[k].entries().len() == before[0].entries().len(),
        before[k].cursor() == (before[0].cursor() + k) % (before[0].entries().len() as int),
        after[k].cursor() == (before[0].cursor() + k + 1) % (before[0].entries().len() as int),
    decreases k,
{
    let n = before[0].entries().len() as int;
    let start = before[0].cursor();
    assert(before[0].passed(&after[0], entries[0]));
    lemma_cyclic_order(start, n, k as nat);
    lemma_cyclic_order(start, n, (k + 1) as nat);
    if k > 0 {
        lemma_receives_in_cyclic_order(before, after, entries, k - 1);
        assert(before[k - 1].passed(&after[k - 1], entries[k - 1]));
        assert(before[k].cursor() == after[k - 1].cursor());
    } else {
        lemma_small_mod(start as nat, n as nat);
    }
    assert(before[k].passed(&after[k], entries[k]));
}

/// An entry that comes back with the CRC error flag is reported as
/// corrupted, and the entry that `recv_next` leaves in its place belongs
/// to the engine again.
pub proof fn lemma_crc_error_recycles(ring: RxRing)
    requires
        ring.wf(),
        ring.head().desc.owner() == Owner::Cpu,
        ring.head().desc.flag(RXDESC_0_CE),
    ensures
        ring.recv_outcome() == Err::<(), RxError>(RxError::Corrupted),
        ring.head().released().desc.owner() == Owner::Dma,
        ring.head().released().buffer == ring.head().buffer,
{
    ring.head().desc.lemma_crc_error_is_error();
    ring.head().desc.lemma_released();
}

/// Software keeps off what the engine owns: a call that passes an entry
/// leaves every entry that belonged to the engine exactly as it was.
pub proof fn lemma_engine_entries_untouched(before: RxRing, after: RxRing, entry: RxRingEntry)
    requires
        before.wf(),
        before.recv_outcome() != Err::<(), RxError>(RxError::WouldBlock),
        before.passed(&after, entry),
    ensures
        forall|i: int|
            0 <= i < before.entries().len() && (#[trigger] before.entries()[i]).desc.owner()
                == Owner::Dma ==> after.entries()[i] == before.entries()[i],
{
}

} // verus!
