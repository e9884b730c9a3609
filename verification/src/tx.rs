//! The transmit side: descriptor format, ring entries and the polling ring.

use vstd::prelude::*;
use vstd::arithmetic::div_mod::{lemma_mod_add_multiples_vanish, lemma_small_mod};
use crate::barrier::write_barrier;
use crate::desc::{Descriptor, Owner};
use crate::regs::Register;
use crate::ring::{
    advanced, lemma_cyclic_order, lemma_successor_in_range, next_index, successor, EntryAddress,
    RunningState, POLL_DEMAND,
};
use crate::MTU;

verus! {

/// Word 0: the engine owns the descriptor.
pub const TXDESC_0_OWN: u32 = 0x8000_0000;
/// Word 0: raise an interrupt when the frame has left.
pub const TXDESC_0_IC: u32 = 0x4000_0000;
/// Word 0: the buffer holds the last segment of the frame.
pub const TXDESC_0_LS: u32 = 0x2000_0000;
/// Word 0: the buffer holds the first segment of the frame.
pub const TXDESC_0_FS: u32 = 0x1000_0000;
/// Word 0: last descriptor of the ring.
pub const TXDESC_0_TER: u32 = 0x0020_0000;
/// Word 0: word 3 holds the address of the next descriptor.
pub const TXDESC_0_TCH: u32 = 0x0010_0000;
/// Word 0: error summary.
pub const TXDESC_0_ES: u32 = 0x0000_8000;
/// Word 0: no carrier.
pub const TXDESC_0_NC: u32 = 0x0000_0400;
/// Word 0: underflow.
pub const TXDESC_0_UF: u32 = 0x0000_0002;
/// Word 0: what software sets when it hands a whole frame to the engine.
pub const TXDESC_0_SEND: u32 = TXDESC_0_OWN | TXDESC_0_IC | TXDESC_0_LS | TXDESC_0_FS;
/// Word 1: mask of the buffer size field.
pub const TXDESC_1_TBS_MASK: u32 = 0x0000_1FFF;
/// Operation mode register: start or stop transmission.
pub const DMAOMR_ST: u32 = 0x0000_2000;
/// Status register: position of the transmit process state.
pub const DMASR_TPS_SHIFT: u32 = 20;
/// Status register: width mask of the transmit process state, after shifting.
pub const DMASR_TPS_MASK: u32 = 0x7;

/// Why no frame was queued.
#[derive(Clone, Copy, Debug, PartialEq, Eq, Structural)]
pub enum TxError {
    /// The entry at the cursor still waits for the engine to drain it.
    WouldBlock,
    /// The frame is longer than a buffer.
    TooLong,
}

/// A transmit descriptor.
pub struct TxDescriptor {
    pub desc: Descriptor,
}

impl TxDescriptor {
    /// Word `n` of the descriptor.
    pub open spec fn word(&self, n: int) -> u32 {
        self.desc.word(n)
    }

    /// The owner, read off the ownership bit and nothing else.
    pub open spec fn owner(&self) -> Owner {
        if self.word(0) & TXDESC_0_OWN == TXDESC_0_OWN {
            Owner::Dma
        } else {
            Owner::Cpu
        }
    }

    /// The status flags of `mask` are all set.
    pub open spec fn flag(&self, mask: u32) -> bool {
        self.word(0) & mask == mask
    }

    /// The length that software declared for the frame.
    pub open spec fn frame_length(&self) -> nat {
        (self.word(1) & TXDESC_1_TBS_MASK) as nat
    }

    /// The descriptor after software has queued a frame of `length` bytes:
    /// the length is in word 1, and word 0 has gained the ownership bit and
    /// the marks of a whole frame.
    pub open spec fn queued(&self, length: u32) -> TxDescriptor {
        TxDescriptor {
            desc: self.desc.updated(1, (self.word(1) & !TXDESC_1_TBS_MASK) | length).updated(
                0,
                self.word(0) | TXDESC_0_SEND,
            ),
        }
    }

    /// The descriptor that `setup` leaves: owned by software, with the
    /// buffer address, chained to the descriptor at `next`, and marked as
    /// the end of the ring if it is the last.
    pub open spec fn armed(buffer: u32, next: u32, last: bool) -> TxDescriptor {
        TxDescriptor {
            desc: Descriptor::from_words(
                if last {
                    TXDESC_0_TCH | TXDESC_0_TER
                } else {
                    TXDESC_0_TCH
                },
                0,
                buffer,
                next,
            ),
        }
    }

    /// A descriptor with every word zero; software owns it.
    pub fn new() -> (d: TxDescriptor)
        ensures
            d.desc@ == seq![0u32, 0u32, 0u32, 0u32],
            d.owner() == Owner::Cpu,
    {
        let d = TxDescriptor { desc: Descriptor::new() };
        assert(0u32 & TXDESC_0_OWN != TXDESC_0_OWN) by (bit_vector);
        d
    }

    /// Does the engine own the descriptor?
    pub fn is_owned(&self) -> (b: bool)
        ensures
            b == (self.owner() == Owner::Dma),
    {
        (self.desc.read(0) & TXDESC_0_OWN) == TXDESC_0_OWN
    }

    /// Did the engine report a failed transmission?
    pub fn has_error(&self) -> (b: bool)
        ensures
            b == self.flag(TXDESC_0_ES),
    {
        (self.desc.read(0) & TXDESC_0_ES) == TXDESC_0_ES
    }

    /// Did the transmit FIFO run empty in the middle of the frame?
    pub fn has_underflow(&self) -> (b: bool)
        ensures
            b == self.flag(TXDESC_0_UF),
    {
        (self.desc.read(0) & TXDESC_0_UF) == TXDESC_0_UF
    }

    /// Was there no carrier from the transceiver?
    pub fn has_no_carrier(&self) -> (b: bool)
        ensures
            b == self.flag(TXDESC_0_NC),
    {
        (self.desc.read(0) & TXDESC_0_NC) == TXDESC_0_NC
    }

    /// Writes the frame length and hands the descriptor to the engine, as
    /// one whole frame with an interrupt on completion.
    pub fn set_owned(&mut self, length: usize)
        requires
            length <= MTU,
        ensures
            *final(self) == old(self).queued(length as u32),
    {
        self.desc.modify(1, TXDESC_1_TBS_MASK, length as u32);
        assert(self.desc.word(0) == old(self).desc.word(0)) by {
            old(self).desc.lemma_len();
        }
        write_barrier();
        self.desc.modify(0, 0, TXDESC_0_SEND);
        assert(forall|w: u32| (w & !0u32) | TXDESC_0_SEND == w | TXDESC_0_SEND) by (bit_vector);
    }

    /// At any instant a descriptor has exactly one owner, and the ownership
    /// bit alone says which: the engine if the bit is set, software if not.
    pub proof fn lemma_one_owner(&self)
        ensures
            (self.owner() == Owner::Dma) != (self.owner() == Owner::Cpu),
            self.owner() == Owner::Dma <==> self.word(0) & TXDESC_0_OWN != 0,
    {
        let w = self.word(0);
        assert(w & TXDESC_0_OWN == TXDESC_0_OWN <==> w & TXDESC_0_OWN != 0) by (bit_vector);
    }

    /// A queued descriptor belongs to the engine, whatever it held before,
    /// and its buffer and link words are as they were.
    pub proof fn lemma_queued(&self, length: u32)
        ensures
            self.queued(length).owner() == Owner::Dma,
            self.queued(length).word(2) == self.word(2),
            self.queued(length).word(3) == self.word(3),
    {
        self.desc.lemma_len();
        let first = self.desc.updated(1, (self.word(1) & !TXDESC_1_TBS_MASK) | length);
        self.desc.lemma_updated(1, (self.word(1) & !TXDESC_1_TBS_MASK) | length);
        first.lemma_updated(0, self.word(0) | TXDESC_0_SEND);
        let w0 = self.word(0);
        assert((w0 | TXDESC_0_SEND) & TXDESC_0_OWN == TXDESC_0_OWN) by (bit_vector);
    }

    /// A queued descriptor declares the length it was queued with.
    pub proof fn lemma_queued_length(&self, length: u32)
        requires
            length <= MTU,
        ensures
            self.queued(length).frame_length() == length,
    {
        self.desc.lemma_len();
        let first = self.desc.updated(1, (self.word(1) & !TXDESC_1_TBS_MASK) | length);
        self.desc.lemma_updated(1, (self.word(1) & !TXDESC_1_TBS_MASK) | length);
        first.lemma_updated(0, self.word(0) | TXDESC_0_SEND);
        let w1 = self.word(1);
        assert(((w1 & !TXDESC_1_TBS_MASK) | length) & TXDESC_1_TBS_MASK == length) by (bit_vector)
            requires
                length <= 1522,
        ;
    }

    /// Prepares the descriptor for a ring: buffer address, the address of
    /// the descriptor that follows, and the ring-end marker on the last
    /// one. Software keeps ownership.
    pub fn setup(&mut self, buffer: u32, next: u32, last: bool)
        ensures
            *final(self) == Self::armed(buffer, next, last),
    {
        let control: u32 = if last {
            TXDESC_0_TCH | TXDESC_0_TER
        } else {
            TXDESC_0_TCH
        };
        self.desc.write(2, buffer);
        self.desc.write(3, next);
        self.desc.write(1, 0);
        self.desc.write(0, control);
        proof {
            let target = Self::armed(buffer, next, last);
            old(self).desc.lemma_len();
            Descriptor::lemma_from_words(control, 0, buffer, next);
            assert(self.desc@ =~= target.desc@);
            self.desc.lemma_same_words(&target.desc);
        }
    }
}

/// One slot of the transmit ring: a descriptor and the buffer it points at.
pub struct TxRingEntry {
    pub desc: TxDescriptor,
    pub buffer: [u8; MTU],
}

impl TxRingEntry {
    /// A zeroed entry, owned by software.
    pub fn new() -> (e: TxRingEntry)
        ensures
            e.desc.desc@ == seq![0u32, 0u32, 0u32, 0u32],
            e.desc.owner() == Owner::Cpu,
            forall|i: int| 0 <= i < MTU ==> e.buffer@[i] == 0u8,
    {
        TxRingEntry { desc: TxDescriptor::new(), buffer: [0u8; MTU] }
    }

    /// The bytes of the buffer.
    pub fn as_slice(&self) -> (s: &[u8])
        ensures
            s@ == self.buffer@,
    {
        self.buffer.as_slice()
    }

    /// Lets `fill` write the first `length` bytes of the buffer, then
    /// queues them as one frame.
    pub fn fill_and_queue<F: FnOnce(&mut [u8]) -> R, R>(&mut self, length: usize, fill: F) -> (r: R)
        requires
            length <= MTU,
            forall|view: &mut [u8]| view@.len() == length ==> call_requires(fill, (view,)),
        ensures
            final(self).desc == old(self).desc.queued(length as u32),
            final(self).buffer@.subrange(length as int, MTU as int) == old(self).buffer@.subrange(
                length as int,
                MTU as int,
            ),
            exists|view: &mut [u8]|
                {
                    &&& view@ == old(self).buffer@.subrange(0, length as int)
                    &&& final(view)@ == final(self).buffer@.subrange(0, length as int)
                    &&& call_ensures(fill, (view,), r)
                },
    {
        let whole: &mut [u8] = &mut self.buffer;
        let (view, _rest) = whole.split_at_mut(length);
        let r = fill(view);
        self.desc.set_owned(length);
        r
    }
}

/// The state that the transmit process state field `tps` stands for.
pub open spec fn tx_state(tps: u32) -> RunningState {
    if tps == 0 {
        RunningState::Stopped
    } else if tps == 1 || tps == 2 || tps == 3 || tps == 7 {
        RunningState::Running
    } else if tps == 6 {
        RunningState::Suspended
    } else {
        RunningState::Unknown
    }
}

/// The transmit ring: a fixed array of entries and the cursor of the next
/// entry that software will fill.
pub struct TxRing {
    entries: Vec<TxRingEntry>,
    next_entry: usize,
}

impl TxRing {
    #[verifier::type_invariant]
    spec fn inv(self) -> bool {
        self.next_entry < self.entries@.len()
    }

    /// The entries, in ring order.
    pub closed spec fn entries(&self) -> Seq<TxRingEntry> {
        self.entries@
    }

    /// Index of the entry that software fills next.
    pub closed spec fn cursor(&self) -> int {
        self.next_entry as int
    }

    /// The entry at the cursor.
    pub open spec fn head(&self) -> TxRingEntry {
        self.entries()[self.cursor()]
    }

    /// The cursor points at an entry. Every ring that exists at run time
    /// is well formed.
    pub open spec fn wf(&self) -> bool {
        0 <= self.cursor() < self.entries().len()
    }

    /// How `send` ends for a frame of `length` bytes: refused as too long
    /// before anything is looked at, refused while the engine still owns
    /// the entry at the cursor, accepted otherwise.
    pub open spec fn send_outcome(&self, length: int) -> Result<(), TxError> {
        if length > MTU {
            Err(TxError::TooLong)
        } else if self.head().desc.owner() == Owner::Dma {
            Err(TxError::WouldBlock)
        } else {
            Ok(())
        }
    }

    /// `after` is this ring one accepted frame of `length` bytes later:
    /// the entry at the cursor is queued, its buffer differs at most in
    /// the first `length` bytes, every other entry is as it was, and the
    /// cursor has moved one entry on.
    pub open spec fn sent(&self, after: &TxRing, length: int) -> bool {
        &&& after.entries().len() == self.entries().len()
        &&& after.cursor() == successor(self.cursor(), self.entries().len() as int)
        &&& after.entries()[self.cursor()].desc == self.head().desc.queued(length as u32)
        &&& after.entries()[self.cursor()].buffer@.subrange(length, MTU as int)
            == self.head().buffer@.subrange(length, MTU as int)
        &&& forall|i: int|
            0 <= i < self.entries().len() && i != self.cursor() ==> after.entries()[i]
                == self.entries()[i]
    }

    /// A ring over `entries`, with the cursor at the first.
    pub fn new(entries: Vec<TxRingEntry>) -> (ring: TxRing)
        requires
            entries@.len() > 0,
        ensures
            ring.wf(),
            ring.entries() == entries@,
            ring.cursor() == 0,
    {
        TxRing { entries, next_entry: 0 }
    }

    /// Number of entries.
    pub fn len(&self) -> (n: usize)
        ensures
            self.wf(),
            n == self.entries().len(),
    {
        proof {
            use_type_invariant(self);
        }
        self.entries.len()
    }

    /// The entry at `index`, for whoever plays the part of the engine.
    pub fn entry(&self, index: usize) -> (e: &TxRingEntry)
        requires
            index < self.entries().len(),
        ensures
            *e == self.entries()[index as int],
    {
        &self.entries[index]
    }

    /// The entry at `index`, open to change, for whoever plays the part of
    /// the engine. The ring takes whatever is written.
    pub fn entry_mut(&mut self, index: usize) -> (e: &mut TxRingEntry)
        requires
            index < old(self).entries().len(),
        ensures
            *e == old(self).entries()[index as int],
            final(self).entries() == old(self).entries().update(index as int, *final(e)),
            final(self).cursor() == old(self).cursor(),
    {
        proof {
            use_type_invariant(&*self);
        }
        &mut self.entries[index]
    }

    /// Index of the entry that software fills next.
    pub fn next_entry(&self) -> (at: usize)
        ensures
            self.wf(),
            at == self.cursor(),
    {
        proof {
            use_type_invariant(self);
        }
        self.next_entry
    }

    /// Is the ring full? It is when the engine still owns the entry at the
    /// cursor: then that entry and every one after it waits to be drained.
    pub fn is_full(&self) -> (full: bool)
        ensures
            self.wf(),
            full == (self.head().desc.owner() == Owner::Dma),
            full == (self.send_outcome(0) == Err::<(), TxError>(TxError::WouldBlock)),
    {
        proof {
            use_type_invariant(self);
        }
        self.entries[self.next_entry].desc.is_owned()
    }

    /// The entries as `start` leaves them: every descriptor armed with its
    /// buffer and with the address of the descriptor that follows it, the
    /// last one marked as the end of the ring and linked to the first.
    pub open spec fn armed_from(entries: Seq<TxRingEntry>, layout: Seq<EntryAddress>) -> Seq<TxRingEntry> {
        Seq::new(
            entries.len(),
            |i: int|
                TxRingEntry {
                    desc: TxDescriptor::armed(
                        layout[i].buffer,
                        layout[successor(i, entries.len() as int)].descriptor,
                        i + 1 == entries.len(),
                    ),
                    buffer: entries[i].buffer,
                },
        )
    }

    /// This ring's entries as `start` leaves them.
    pub open spec fn armed(&self, layout: Seq<EntryAddress>) -> Seq<TxRingEntry> {
        Self::armed_from(self.entries(), layout)
    }

    /// Makes the ring ready and starts the transmit process: links the
    /// descriptors into a circle, all owned by software, puts the cursor on
    /// the first, writes the address of the first descriptor to the list
    /// address register and sets the start bit.
    pub fn start(&mut self, layout: &Vec<EntryAddress>, dma_tdlar: &mut Register, dma_omr: &mut Register)
        requires
            layout@.len() == old(self).entries().len(),
        ensures
            final(self).wf(),
            final(self).entries() == old(self).armed(layout@),
            final(self).cursor() == 0,
            *final(dma_tdlar) == old(dma_tdlar).written(layout@[0].descriptor),
            *final(dma_omr) == old(dma_omr).modified(0, DMAOMR_ST),
    {
        proof {
            use_type_invariant(&*self);
        }
        let n = self.entries.len();
        let mut i: usize = 0;
        while i < n
            invariant
                n == self.entries@.len(),
                n == layout@.len(),
                n == old(self).entries@.len(),
                0 <= i <= n,
                self.next_entry < n,
                forall|k: int| 0 <= k < i ==> self.entries@[k] == old(self).armed(layout@)[k],
                forall|k: int| i <= k < n ==> self.entries@[k] == old(self).entries@[k],
            decreases n - i,
        {
            let next = next_index(i, n);
            let address = layout[i];
            let following = layout[next];
            self.entries[i].desc.setup(address.buffer, following.descriptor, i + 1 == n);
            i = i + 1;
        }
        self.next_entry = 0;
        assert(self.entries@ =~= old(self).armed(layout@));
        dma_tdlar.write(layout[0].descriptor);
        dma_omr.modify(0, DMAOMR_ST);
    }

    /// Queues one frame of `length` bytes that `fill` writes in place.
    ///
    /// A frame longer than a buffer is refused before anything is looked
    /// at. While the engine still owns the entry at the cursor the ring is
    /// full and the call is refused too. In both cases `fill` is not
    /// called and the ring is as it was.
    pub fn send<F: FnOnce(&mut [u8]) -> R, R>(&mut self, length: usize, fill: F) -> (r: Result<
        R,
        TxError,
    >)
        requires
            forall|view: &mut [u8]| view@.len() == length ==> call_requires(fill, (view,)),
        ensures
            old(self).wf(),
            final(self).wf(),
            match r {
                Ok(value) => {
                    &&& old(self).send_outcome(length as int) is Ok
                    &&& old(self).sent(final(self), length as int)
                    &&& exists|view: &mut [u8]|
                        {
                            &&& view@ == old(self).head().buffer@.subrange(0, length as int)
                            &&& final(view)@ == final(self).entries()[old(self).cursor()].buffer@.subrange(
                                0,
                                length as int,
                            )
                            &&& call_ensures(fill, (view,), value)
                        }
                },
                Err(e) => {
                    &&& old(self).send_outcome(length as int) == Err::<(), TxError>(e)
                    &&& *final(self) == *old(self)
                },
            },
    {
        proof {
            use_type_invariant(&*self);
        }
        if length > MTU {
            return Err(TxError::TooLong);
        }
        let n = self.entries.len();
        let at = self.next_entry;
        if self.entries[at].desc.is_owned() {
            return Err(TxError::WouldBlock);
        }
        let value = self.entries[at].fill_and_queue(length, fill);
        self.next_entry = next_index(at, n);
        Ok(value)
    }

    /// Wakes a parked transmit process. Any number of calls leaves the
    /// register as one call does.
    pub fn demand_poll(&self, dma_tpdr: &mut Register)
        ensures
            *final(dma_tpdr) == old(dma_tpdr).written(POLL_DEMAND),
    {
        dma_tpdr.write(POLL_DEMAND);
    }

    /// What the transmit process is doing, read off the status register.
    pub fn running_state(&self, dma_sr: &Register) -> (state: RunningState)
        ensures
            state == tx_state(dma_sr.field(DMASR_TPS_SHIFT, DMASR_TPS_MASK)),
    {
        let tps = dma_sr.read_field(DMASR_TPS_SHIFT, DMASR_TPS_MASK);
        if tps == 0 {
            RunningState::Stopped
        } else if tps == 1 || tps == 2 || tps == 3 || tps == 7 {
            RunningState::Running
        } else if tps == 6 {
            RunningState::Suspended
        } else {
            RunningState::Unknown
        }
    }

    /// Is the transmit process at work?
    pub fn is_running(&self, dma_sr: &Register) -> (b: bool)
        ensures
            b == (tx_state(dma_sr.field(DMASR_TPS_SHIFT, DMASR_TPS_MASK)) == RunningState::Running),
    {
        self.running_state(dma_sr).is_running()
    }
}

/// `rings` is a run of accepted frames while the engine drains nothing:
/// each ring is the one before it, one accepted frame later.
pub open spec fn send_run(rings: Seq<TxRing>, lengths: Seq<int>) -> bool {
    &&& rings.len() == lengths.len() + 1
    &&& forall|k: int|
        0 <= k < lengths.len() ==> {
            &&& rings[k].wf()
            &&& rings[k].send_outcome(#[trigger] lengths[k]) is Ok
            &&& rings[k].sent(&rings[k + 1], lengths[k])
        }
}

/// After `k` accepted frames the cursor is `k` entries on, in cyclic
/// order, and the `k` entries that it passed belong to the engine.
pub proof fn lemma_send_run(rings: Seq<TxRing>, lengths: Seq<int>, k: int)
    requires
        send_run(rings, lengths),
        0 <= k <= lengths.len(),
        rings[0].wf(),
    ensures
        rings[k].wf(),
        rings[k].entries().len() == rings[0].entries().len(),
        rings[k].cursor() == advanced(rings[0].cursor(), rings[0].entries().len() as int, k as nat),
        rings[k].cursor() == (rings[0].cursor() + k) % (rings[0].entries().len() as int),
        forall|j: int|
            0 <= j < k ==> (#[trigger] rings[k].entries()[advanced(
                rings[0].cursor(),
                rings[0].entries().len() as int,
                j as nat,
            )]).desc.owner() == Owner::Dma,
    decreases k,
{
    let n = rings[0].entries().len() as int;
    let start = rings[0].cursor();
    lemma_cyclic_order(start, n, k as nat);
    if k > 0 {
        let before = rings[k - 1];
        let after = rings[k];
        lemma_send_run(rings, lengths, k - 1);
        assert(before.sent(&after, lengths[k - 1]));
        lemma_successor_in_range(before.cursor(), n);
        before.head().desc.lemma_queued(lengths[k - 1] as u32);
        assert forall|j: int| 0 <= j < k implies (#[trigger] after.entries()[advanced(
            start,
            n,
            j as nat,
        )]).desc.owner() == Owner::Dma by {
            lemma_cyclic_order(start, n, j as nat);
            let at = advanced(start, n, j as nat);
            if at != before.cursor() {
                assert(j < k - 1);
                assert(before.entries()[at].desc.owner() == Owner::Dma);
            }
        }
    }
}

/// A ring of N entries takes N frames and refuses the next one for as
/// long as the engine drains nothing; as soon as the engine gives back
/// the oldest entry, the one queued first, the next frame is accepted.
pub proof fn lemma_full_ring_blocks(
    rings: Seq<TxRing>,
    lengths: Seq<int>,
    drained: TxRing,
    length: int,
)
    requires
        rings[0].wf(),
        send_run(rings, lengths),
        lengths.len() == rings[0].entries().len(),
        length <= MTU,
        drained.cursor() == rings.last().cursor(),
        drained.entries().len() == rings.last().entries().len(),
        drained.entries()[rings[0].cursor()].desc.owner() == Owner::Cpu,
    ensures
        rings.last().cursor() == rings[0].cursor(),
        rings.last().send_outcome(length) == Err::<(), TxError>(TxError::WouldBlock),
        drained.send_outcome(length) is Ok,
{
    let n = lengths.len() as int;
    let start = rings[0].cursor();
    lemma_send_run(rings, lengths, n);
    lemma_mod_add_multiples_vanish(start, n);
    lemma_small_mod(start as nat, n as nat);
    assert(rings[n].cursor() == start);
    let first: int = 0;
    assert(advanced(start, n, first as nat) == start);
    assert(rings[n].entries()[advanced(start, n, first as nat)].desc.owner() == Owner::Dma);
}

/// `before` and `after` are the rings around a series of accepted frames.
/// Between two frames the engine may do to the entries what it likes; it
/// has no way to move the cursor or to change the number of entries.
pub open spec fn send_series(before: Seq<TxRing>, after: Seq<TxRing>, lengths: Seq<int>) -> bool {
    &&& before.len() == lengths.len()
    &&& after.len() == lengths.len()
    &&& forall|k: int|
        0 <= k < lengths.len() ==> {
            &&& before[k].wf()
            &&& before[k].sent(&after[k], #[trigger] lengths[k])
        }
    &&& forall|k: int|
        0 <= k < lengths.len() - 1 ==> {
            &&& before[k + 1].cursor() == (#[trigger] after[k]).cursor()
            &&& before[k + 1].entries().len() == after[k].entries().len()
        }
}

/// However many frames are accepted, the cursor visits the entries in
/// cyclic order: frame number `k` goes into entry `(start + k) % N`, where
/// `start` is the cursor before the first frame.
pub proof fn lemma_sends_in_cyclic_order(
    before: Seq<TxRing>,
    after: Seq<TxRing>,
    lengths: Seq<int>,
    k: int,
)
    requires
        send_series(before, after, lengths),
        0 <= k < lengths.len(),
    ensures
        before[k].entries().len() == before[0].entries().len(),
        before[k].cursor() == (before[0].cursor() + k) % (before[0].entries().len() as int),
        after[k].cursor() == (before[0].cursor() + k + 1) % (before[0].entries().len() as int),
    decreases k,
{
    let n = before[0].entries().len() as int;
    let start = before[0].cursor();
    assert(before[0].sent(&after[0], lengths[0]));
    lemma_cyclic_order(start, n, k as nat);
    lemma_cyclic_order(start, n, (k + 1) as nat);
    if k > 0 {
        lemma_sends_in_cyclic_order(before, after, lengths, k - 1);
        assert(before[k - 1].sent(&after[k - 1], lengths[k - 1]));
        assert(before[k].cursor() == after[k - 1].cursor());
    } else {
        lemma_small_mod(start as nat, n as nat);
    }
    assert(before[k].sent(&after[k], lengths[k]));
}

/// Software keeps off what the engine owns: an accepted frame leaves
/// every entry that belonged to the engine exactly as it was.
pub proof fn lemma_engine_entries_untouched(before: TxRing, after: TxRing, length: int)
    requires
        before.wf(),
        before.send_outcome(length) is Ok,
        before.sent(&after, length),
    ensures
        forall|i: int|
            0 <= i < before.entries().len() && (#[trigger] before.entries()[i]).desc.owner()
                == Owner::Dma ==> after.entries()[i] == before.entries()[i],
{
}

} // verus!
