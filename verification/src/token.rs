//! Tokens for a packet-processing stack: each one stands for exactly one
//! ring transaction and lends the entry's buffer to one callback.

use vstd::prelude::*;
use crate::regs::Register;
use crate::ring::POLL_DEMAND;
use crate::rx::RxPacket;
use crate::tx::{TxError, TxRing};
use crate::MTU;

verus! {

/// One received frame that waits to be read.
pub struct EthRxToken<'a> {
    pub packet: RxPacket<'a>,
}

impl<'a> EthRxToken<'a> {
    /// Lends the frame to `f` for reading, then hands the entry back to
    /// the engine, whatever `f` returned.
    pub fn consume<R, F: FnOnce(&[u8]) -> R>(self, f: F) -> (r: R)
        requires
            self.packet.wf(),
            forall|bytes: &[u8]| bytes@ == self.packet.bytes() ==> call_requires(f, (bytes,)),
        ensures
            *final(self.packet.entry) == old(self.packet.entry).released(),
            exists|bytes: &[u8]| bytes@ == self.packet.bytes() && call_ensures(f, (bytes,), r),
    {
        let r = f(self.packet.as_slice());
        self.packet.free();
        r
    }
}

/// The right to queue one frame.
pub struct EthTxToken<'a> {
    pub tx_ring: &'a mut TxRing,
    pub dma_tpdr: &'a mut Register,
}

impl<'a> EthTxToken<'a> {
    /// Lends the first `len` bytes of the next free buffer to `f` for
    /// writing, queues the frame and demands a poll.
    ///
    /// A frame that is too long is refused without touching anything, the
    /// poll demand register included. When the ring is full the frame is
    /// refused too and a poll is demanded, to wake an engine that parked
    /// itself with frames still waiting. A refused frame is never written.
    pub fn consume<R, F: FnOnce(&mut [u8]) -> R>(self, len: usize, f: F) -> (r: Result<R, TxError>)
        requires
            forall|view: &mut [u8]| view@.len() == len ==> call_requires(f, (view,)),
        ensures
            old(self.tx_ring).wf(),
            final(self.tx_ring).wf(),
            match r {
                Ok(value) => {
                    &&& old(self.tx_ring).send_outcome(len as int) is Ok
                    &&& old(self.tx_ring).sent(final(self.tx_ring), len as int)
                    &&& exists|view: &mut [u8]|
                        {
                            &&& view@ == old(self.tx_ring).head().buffer@.subrange(0, len as int)
                            &&& final(view)@ == final(self.tx_ring).entries()[old(
                                self.tx_ring,
                            ).cursor()].buffer@.subrange(0, len as int)
                            &&& call_ensures(f, (view,), value)
                        }
                    &&& *final(self.dma_tpdr) == old(self.dma_tpdr).written(POLL_DEMAND)
                },
                Err(TxError::WouldBlock) => {
                    &&& old(self.tx_ring).send_outcome(len as int) == Err::<(), TxError>(
                        TxError::WouldBlock,
                    )
                    &&& *final(self.tx_ring) == *old(self.tx_ring)
                    &&& *final(self.dma_tpdr) == old(self.dma_tpdr).written(POLL_DEMAND)
                },
                Err(TxError::TooLong) => {
                    &&& old(self.tx_ring).send_outcome(len as int) == Err::<(), TxError>(
                        TxError::TooLong,
                    )
                    &&& *final(self.tx_ring) == *old(self.tx_ring)
                    &&& *final(self.dma_tpdr) == *old(self.dma_tpdr)
                },
            },
    {
        let result = self.tx_ring.send(len, f);
        if len <= MTU {
            self.tx_ring.demand_poll(self.dma_tpdr);
        }
        result
    }
}

} // verus!
