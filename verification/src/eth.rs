//! The driver: both rings and the images of the MAC and DMA registers.

use vstd::prelude::*;
use crate::desc::Owner;
use crate::phy::{status_of, Phy, PhyStatus};
use crate::regs::Register;
use crate::ring::{EntryAddress, RunningState, POLL_DEMAND};
use crate::rx::{
    rx_state, RxError, RxPacket, RxRing, RxRingEntry, DMAOMR_SR, DMASR_RPS_MASK, DMASR_RPS_SHIFT,
};
use crate::token::{EthRxToken, EthTxToken};
use crate::MTU;
use crate::tx::{
    tx_state, TxError, TxRing, TxRingEntry, DMAOMR_ST, DMASR_TPS_MASK, DMASR_TPS_SHIFT,
};

verus! {

/// Address of the transceiver on the management bus.
pub const PHY_ADDR: u8 = 0;

/// MII clock divider for a bus clock of 60 to 100 MHz.
pub const ETH_MACMIIAR_CR_HCLK_DIV_42: u8 = 0;
/// MII clock divider for a bus clock of 100 to 150 MHz.
pub const ETH_MACMIIAR_CR_HCLK_DIV_62: u8 = 1;
/// MII clock divider for a bus clock of 20 to 35 MHz.
pub const ETH_MACMIIAR_CR_HCLK_DIV_16: u8 = 2;
/// MII clock divider for a bus clock of 35 to 60 MHz.
pub const ETH_MACMIIAR_CR_HCLK_DIV_26: u8 = 3;
/// MII clock divider for a bus clock of 150 to 168 MHz.
pub const ETH_MACMIIAR_CR_HCLK_DIV_102: u8 = 4;

/// MII address register: position of the clock range.
pub const MACMIIAR_CR_SHIFT: u32 = 2;
/// MII address register: width mask of the clock range.
pub const MACMIIAR_CR_MASK: u32 = 0x7;
/// Configuration register: CRC stripping for type frames.
pub const MACCR_CSTF: u32 = 0x0200_0000;
/// Configuration register: fast Ethernet speed.
pub const MACCR_FES: u32 = 0x0000_4000;
/// Configuration register: duplex mode.
pub const MACCR_DM: u32 = 0x0000_0800;
/// Configuration register: retry disable in half-duplex mode.
pub const MACCR_RD: u32 = 0x0000_0200;
/// Configuration register: automatic pad and CRC stripping.
pub const MACCR_APCS: u32 = 0x0000_0080;
/// Configuration register: transmitter enable.
pub const MACCR_TE: u32 = 0x0000_0008;
/// Configuration register: receiver enable.
pub const MACCR_RE: u32 = 0x0000_0004;
/// Configuration register: everything that the driver sets.
pub const MACCR_INIT: u32 = MACCR_CSTF | MACCR_FES | MACCR_DM | MACCR_APCS | MACCR_RD | MACCR_RE
    | MACCR_TE;
/// Frame filter register: receive all.
pub const MACFFR_RA: u32 = 0x8000_0000;
/// Frame filter register: promiscuous mode.
pub const MACFFR_PM: u32 = 0x0000_0001;
/// Frame filter register: everything that the driver sets.
pub const MACFFR_INIT: u32 = MACFFR_RA | MACFFR_PM;
/// Flow control register: position of the pause time.
pub const MACFCR_PT_SHIFT: u32 = 16;
/// Flow control register: width mask of the pause time.
pub const MACFCR_PT_MASK: u32 = 0xFFFF;
/// The pause time that the driver sets.
pub const PAUSE_TIME: u32 = 0x100;
/// Operation mode register: do not drop frames with checksum errors.
pub const DMAOMR_DTCEFD: u32 = 0x0400_0000;
/// Operation mode register: receive store and forward.
pub const DMAOMR_RSF: u32 = 0x0200_0000;
/// Operation mode register: do not flush received frames.
pub const DMAOMR_DFRF: u32 = 0x0100_0000;
/// Operation mode register: transmit store and forward.
pub const DMAOMR_TSF: u32 = 0x0020_0000;
/// Operation mode register: forward error frames.
pub const DMAOMR_FEF: u32 = 0x0000_0080;
/// Operation mode register: operate on the second frame.
pub const DMAOMR_OSF: u32 = 0x0000_0004;
/// Operation mode register: everything that the driver sets.
pub const DMAOMR_INIT: u32 = DMAOMR_DTCEFD | DMAOMR_RSF | DMAOMR_DFRF | DMAOMR_TSF | DMAOMR_FEF
    | DMAOMR_OSF;
/// Bus mode register: software reset.
pub const DMABMR_SR: u32 = 0x0000_0001;
/// Bus mode register: address-aligned beats.
pub const DMABMR_AAB: u32 = 0x0200_0000;
/// Bus mode register: use separate burst lengths.
pub const DMABMR_USP: u32 = 0x0080_0000;
/// Bus mode register: fixed burst.
pub const DMABMR_FB: u32 = 0x0001_0000;
/// Bus mode register: the single bits that the driver sets.
pub const DMABMR_INIT: u32 = DMABMR_AAB | DMABMR_FB | DMABMR_USP;
/// Bus mode register: position of the receive burst length.
pub const DMABMR_RDP_SHIFT: u32 = 17;
/// Bus mode register: position of the burst length.
pub const DMABMR_PBL_SHIFT: u32 = 8;
/// Bus mode register: width mask of both burst lengths.
pub const DMABMR_BURST_MASK: u32 = 0x3F;
/// Bus mode register: position of the priority ratio.
pub const DMABMR_RTPR_SHIFT: u32 = 14;
/// Bus mode register: width mask of the priority ratio.
pub const DMABMR_RTPR_MASK: u32 = 0x3;
/// The burst length, in beats, for both directions.
pub const BURST_LENGTH: u32 = 32;
/// Receive to transmit priority of two to one.
pub const PRIORITY_2_TO_1: u32 = 0b01;
/// Interrupt enable register: normal interrupt summary.
pub const DMAIER_NISE: u32 = 0x0001_0000;
/// Interrupt enable register: receive interrupt.
pub const DMAIER_RIE: u32 = 0x0000_0040;
/// Interrupt enable register: transmit interrupt.
pub const DMAIER_TIE: u32 = 0x0000_0001;
/// Interrupt enable register: everything that the driver enables.
pub const DMAIER_INIT: u32 = DMAIER_NISE | DMAIER_RIE | DMAIER_TIE;
/// Status register: normal interrupt summary.
pub const DMASR_NIS: u32 = 0x0001_0000;
/// Status register: receive status.
pub const DMASR_RS: u32 = 0x0000_0040;
/// Status register: transmit status.
pub const DMASR_TS: u32 = 0x0000_0001;
/// Status register: the flags that the interrupt handler acknowledges.
pub const DMASR_ACK: u32 = DMASR_NIS | DMASR_RS | DMASR_TS;

/// Ethernet driver for *STM32* chips with a *LAN8742* transceiver like
/// they're found on STM Nucleo-144 boards.
pub struct Eth {
    pub mac_miiar: Register,
    pub mac_miidr: Register,
    pub mac_cr: Register,
    pub mac_ffr: Register,
    pub mac_fcr: Register,
    pub dma_omr: Register,
    pub dma_bmr: Register,
    pub dma_ier: Register,
    pub dma_sr: Register,
    pub dma_tpdr: Register,
    pub dma_rpdr: Register,
    pub dma_rdlar: Register,
    pub dma_tdlar: Register,
    pub rx_ring: RxRing,
    pub tx_ring: TxRing,
}

/// The registers of the MAC and of its DMA block that the driver touches.
#[derive(Clone, Copy, Debug, PartialEq, Eq, Structural)]
pub enum Reg {
    MacMiiar,
    MacMiidr,
    MacCr,
    MacFfr,
    MacFcr,
    DmaOmr,
    DmaBmr,
    DmaIer,
    DmaSr,
    DmaTpdr,
    DmaRpdr,
    DmaRdlar,
    DmaTdlar,
}

/// One write that waits to be put on the bus.
#[derive(Clone, Copy, Debug, PartialEq, Eq, Structural)]
pub struct BusWrite {
    pub reg: Reg,
    pub value: u32,
}

/// The write that waits in `image`, if one does.
pub open spec fn waiting(reg: Reg, image: Register) -> Seq<BusWrite> {
    if image.pending {
        seq![BusWrite { reg, value: image.value }]
    } else {
        Seq::empty()
    }
}

/// The image with nothing waiting.
pub open spec fn settled(image: Register) -> Register {
    Register { value: image.value, pending: false }
}

/// Moves the write that waits in `image`, if one does, to the end of
/// `writes`.
fn take(reg: Reg, image: &mut Register, writes: &mut Vec<BusWrite>)
    ensures
        final(writes)@ == old(writes)@ + waiting(reg, *old(image)),
        *final(image) == settled(*old(image)),
{
    match image.take_write() {
        Some(value) => {
            writes.push(BusWrite { reg, value });
        },
        None => {
            assert(writes@ =~= old(writes)@ + waiting(reg, *old(image)));
        },
    }
}

/// The bus mode register as the driver configures it.
pub open spec fn bus_mode(r: Register) -> Register {
    r.modified(0, DMABMR_INIT).with_field(
        DMABMR_RDP_SHIFT,
        DMABMR_BURST_MASK,
        BURST_LENGTH,
    ).with_field(DMABMR_PBL_SHIFT, DMABMR_BURST_MASK, BURST_LENGTH).with_field(
        DMABMR_RTPR_SHIFT,
        DMABMR_RTPR_MASK,
        PRIORITY_2_TO_1,
    )
}

/// Configuring the bus mode register does not ask for a reset: where the
/// reset bit was clear, it stays clear.
pub proof fn lemma_bus_mode_keeps_reset_clear(r: Register)
    requires
        !r.has(DMABMR_SR),
    ensures
        !bus_mode(r).has(DMABMR_SR),
{
    let v = r.value;
    let a = (v & !0u32) | DMABMR_INIT;
    let b = (a & !(DMABMR_BURST_MASK << DMABMR_RDP_SHIFT)) | ((BURST_LENGTH & DMABMR_BURST_MASK)
        << DMABMR_RDP_SHIFT);
    let c = (b & !(DMABMR_BURST_MASK << DMABMR_PBL_SHIFT)) | ((BURST_LENGTH & DMABMR_BURST_MASK)
        << DMABMR_PBL_SHIFT);
    let d = (c & !(DMABMR_RTPR_MASK << DMABMR_RTPR_SHIFT)) | ((PRIORITY_2_TO_1 & DMABMR_RTPR_MASK)
        << DMABMR_RTPR_SHIFT);
    assert(bus_mode(r).value == d);
    assert(d & DMABMR_SR != DMABMR_SR) by (bit_vector)
        requires
            v & DMABMR_SR != DMABMR_SR,
            a == (v & !0u32) | DMABMR_INIT,
            b == (a & !(DMABMR_BURST_MASK << DMABMR_RDP_SHIFT)) | ((BURST_LENGTH
                & DMABMR_BURST_MASK) << DMABMR_RDP_SHIFT),
            c == (b & !(DMABMR_BURST_MASK << DMABMR_PBL_SHIFT)) | ((BURST_LENGTH
                & DMABMR_BURST_MASK) << DMABMR_PBL_SHIFT),
            d == (c & !(DMABMR_RTPR_MASK << DMABMR_RTPR_SHIFT)) | ((PRIORITY_2_TO_1
                & DMABMR_RTPR_MASK) << DMABMR_RTPR_SHIFT),
    ;
}

impl Eth {
    /// Asks the DMA block to reset itself. The block drops the bit when
    /// the reset is done; until then no other register may be written.
    pub fn reset_dma(dma_bmr: &mut Register)
        ensures
            *final(dma_bmr) == old(dma_bmr).modified(0, DMABMR_SR),
    {
        dma_bmr.modify(0, DMABMR_SR);
    }

    /// Is the reset of the DMA block still under way?
    pub fn reset_pending(dma_bmr: &Register) -> (pending: bool)
        ensures
            pending == dma_bmr.has(DMABMR_SR),
    {
        dma_bmr.read_bit(DMABMR_SR)
    }

    /// Initialize and start tx and rx DMA engines.
    ///
    /// You must call `setup()` before to initialize the hardware, and the
    /// DMA block must have finished its reset.
    ///
    /// Make sure that the buffers reside in a memory region that is
    /// accessible by the peripheral. Core-Coupled Memory (CCM) is
    /// usually not. The layouts say where each entry lies there.
    ///
    /// Other than that, configures the MAC and the DMA block and starts
    /// both rings so that you can `send()` and `recv_next()`.
    pub fn new(
        mac_miiar: Register,
        mac_miidr: Register,
        mac_cr: Register,
        mac_ffr: Register,
        mac_fcr: Register,
        dma_omr: Register,
        dma_bmr: Register,
        dma_ier: Register,
        dma_sr: Register,
        dma_rpdr: Register,
        dma_tpdr: Register,
        dma_rdlar: Register,
        dma_tdlar: Register,
        rx_buffer: Vec<RxRingEntry>,
        rx_layout: &Vec<EntryAddress>,
        tx_buffer: Vec<TxRingEntry>,
        tx_layout: &Vec<EntryAddress>,
    ) -> (eth: Eth)
        requires
            !dma_bmr.has(DMABMR_SR),
            rx_buffer@.len() > 0,
            tx_buffer@.len() > 0,
            rx_layout@.len() == rx_buffer@.len(),
            tx_layout@.len() == tx_buffer@.len(),
        ensures
            !eth.dma_bmr.has(DMABMR_SR),
            eth.mac_miiar == mac_miiar.with_field(
                MACMIIAR_CR_SHIFT,
                MACMIIAR_CR_MASK,
                ETH_MACMIIAR_CR_HCLK_DIV_16 as u32,
            ),
            eth.mac_miidr == mac_miidr,
            eth.mac_cr == mac_cr.modified(0, MACCR_INIT),
            eth.mac_ffr == mac_ffr.modified(0, MACFFR_INIT),
            eth.mac_fcr == mac_fcr.with_field(MACFCR_PT_SHIFT, MACFCR_PT_MASK, PAUSE_TIME),
            eth.dma_omr == dma_omr.modified(0, DMAOMR_INIT).modified(0, DMAOMR_SR).modified(
                0,
                DMAOMR_ST,
            ),
            eth.dma_bmr == bus_mode(dma_bmr),
            eth.dma_ier == dma_ier,
            eth.dma_sr == dma_sr,
            eth.dma_rpdr == dma_rpdr.written(POLL_DEMAND),
            eth.dma_tpdr == dma_tpdr,
            eth.dma_rdlar == dma_rdlar.written(rx_layout@[0].descriptor),
            eth.dma_tdlar == dma_tdlar.written(tx_layout@[0].descriptor),
            eth.rx_ring.wf(),
            eth.rx_ring.cursor() == 0,
            eth.rx_ring.entries() == RxRing::armed_from(rx_buffer@, rx_layout@),
            eth.tx_ring.wf(),
            eth.tx_ring.cursor() == 0,
            eth.tx_ring.entries() == TxRing::armed_from(tx_buffer@, tx_layout@),
    {
        let mut eth = Eth {
            mac_miiar,
            mac_miidr,
            mac_cr,
            mac_ffr,
            mac_fcr,
            dma_omr,
            dma_bmr,
            dma_ier,
            dma_sr,
            dma_tpdr,
            dma_rpdr,
            dma_rdlar,
            dma_tdlar,
            rx_ring: RxRing::new(rx_buffer),
            tx_ring: TxRing::new(tx_buffer),
        };
        eth.init();
        proof {
            lemma_bus_mode_keeps_reset_clear(dma_bmr);
        }
        eth.rx_ring.start(rx_layout, &mut eth.dma_rpdr, &mut eth.dma_rdlar, &mut eth.dma_omr);
        eth.tx_ring.start(tx_layout, &mut eth.dma_tdlar, &mut eth.dma_omr);
        eth
    }

    /// Configures the MAC and the DMA block: clock range of the management
    /// bus, speed and duplex, frame filter, pause time, store-and-forward
    /// mode and burst lengths.
    fn init(&mut self)
        ensures
            *final(self) == (Eth {
                mac_miiar: old(self).mac_miiar.with_field(
                    MACMIIAR_CR_SHIFT,
                    MACMIIAR_CR_MASK,
                    ETH_MACMIIAR_CR_HCLK_DIV_16 as u32,
                ),
                mac_cr: old(self).mac_cr.modified(0, MACCR_INIT),
                mac_ffr: old(self).mac_ffr.modified(0, MACFFR_INIT),
                mac_fcr: old(self).mac_fcr.with_field(MACFCR_PT_SHIFT, MACFCR_PT_MASK, PAUSE_TIME),
                dma_omr: old(self).dma_omr.modified(0, DMAOMR_INIT),
                dma_bmr: bus_mode(old(self).dma_bmr),
                ..*old(self)
            }),
    {
        let clock_range = ETH_MACMIIAR_CR_HCLK_DIV_16;
        self.mac_miiar.write_field(MACMIIAR_CR_SHIFT, MACMIIAR_CR_MASK, clock_range as u32);
        self.mac_cr.modify(0, MACCR_INIT);
        self.mac_ffr.modify(0, MACFFR_INIT);
        self.mac_fcr.write_field(MACFCR_PT_SHIFT, MACFCR_PT_MASK, PAUSE_TIME);
        self.dma_omr.modify(0, DMAOMR_INIT);
        self.dma_bmr.modify(0, DMABMR_INIT);
        self.dma_bmr.write_field(DMABMR_RDP_SHIFT, DMABMR_BURST_MASK, BURST_LENGTH);
        self.dma_bmr.write_field(DMABMR_PBL_SHIFT, DMABMR_BURST_MASK, BURST_LENGTH);
        self.dma_bmr.write_field(DMABMR_RTPR_SHIFT, DMABMR_RTPR_MASK, PRIORITY_2_TO_1);
    }

    /// The writes that wait in the images, in the order in which they go on
    /// the bus: the management registers, the configuration of the MAC and
    /// of the DMA block, the two list addresses, then the operation mode
    /// with its start bits, the status acknowledgement, and the two poll
    /// demands last.
    pub open spec fn pending_writes(&self) -> Seq<BusWrite> {
        waiting(Reg::MacMiiar, self.mac_miiar) + waiting(Reg::MacMiidr, self.mac_miidr) + waiting(
            Reg::MacCr,
            self.mac_cr,
        ) + waiting(Reg::MacFfr, self.mac_ffr) + waiting(Reg::MacFcr, self.mac_fcr) + waiting(
            Reg::DmaBmr,
            self.dma_bmr,
        ) + waiting(Reg::DmaIer, self.dma_ier) + waiting(Reg::DmaRdlar, self.dma_rdlar) + waiting(
            Reg::DmaTdlar,
            self.dma_tdlar,
        ) + waiting(Reg::DmaOmr, self.dma_omr) + waiting(Reg::DmaSr, self.dma_sr) + waiting(
            Reg::DmaRpdr,
            self.dma_rpdr,
        ) + waiting(Reg::DmaTpdr, self.dma_tpdr)
    }

    /// The driver with no write waiting in any image.
    pub open spec fn flushed(&self) -> Eth {
        Eth {
            mac_miiar: settled(self.mac_miiar),
            mac_miidr: settled(self.mac_miidr),
            mac_cr: settled(self.mac_cr),
            mac_ffr: settled(self.mac_ffr),
            mac_fcr: settled(self.mac_fcr),
            dma_omr: settled(self.dma_omr),
            dma_bmr: settled(self.dma_bmr),
            dma_ier: settled(self.dma_ier),
            dma_sr: settled(self.dma_sr),
            dma_tpdr: settled(self.dma_tpdr),
            dma_rpdr: settled(self.dma_rpdr),
            dma_rdlar: settled(self.dma_rdlar),
            dma_tdlar: settled(self.dma_tdlar),
            ..*self
        }
    }

    /// Hands out every write that waits, in the order in which they go on
    /// the bus, and leaves the images with nothing waiting.
    pub fn take_writes(&mut self) -> (writes: Vec<BusWrite>)
        ensures
            writes@ == old(self).pending_writes(),
            *final(self) == old(self).flushed(),
    {
        let mut writes: Vec<BusWrite> = Vec::new();
        take(Reg::MacMiiar, &mut self.mac_miiar, &mut writes);
        take(Reg::MacMiidr, &mut self.mac_miidr, &mut writes);
        take(Reg::MacCr, &mut self.mac_cr, &mut writes);
        take(Reg::MacFfr, &mut self.mac_ffr, &mut writes);
        take(Reg::MacFcr, &mut self.mac_fcr, &mut writes);
        take(Reg::DmaBmr, &mut self.dma_bmr, &mut writes);
        take(Reg::DmaIer, &mut self.dma_ier, &mut writes);
        take(Reg::DmaRdlar, &mut self.dma_rdlar, &mut writes);
        take(Reg::DmaTdlar, &mut self.dma_tdlar, &mut writes);
        take(Reg::DmaOmr, &mut self.dma_omr, &mut writes);
        take(Reg::DmaSr, &mut self.dma_sr, &mut writes);
        take(Reg::DmaRpdr, &mut self.dma_rpdr, &mut writes);
        take(Reg::DmaTpdr, &mut self.dma_tpdr, &mut writes);
        assert(writes@ =~= old(self).pending_writes());
        writes
    }

    /// Enable RX and TX interrupts
    ///
    /// In your handler you must call `eth_interrupt_handler()` to clear
    /// interrupt pending bits. Otherwise the interrupt will reoccur
    /// immediately.
    pub fn enable_interrupt(&mut self)
        ensures
            *final(self) == (Eth {
                dma_ier: old(self).dma_ier.modified(0, DMAIER_INIT),
                ..*old(self)
            }),
    {
        self.dma_ier.modify(0, DMAIER_INIT);
    }

    /// Calls `eth_interrupt_handler()`
    pub fn interrupt_handler(&mut self)
        ensures
            *final(self) == (Eth { dma_sr: old(self).dma_sr.modified(0, DMASR_ACK), ..*old(self) }),
    {
        eth_interrupt_handler(&mut self.dma_sr);
    }

    /// Construct a PHY driver over the images of the two management
    /// registers.
    pub fn get_phy(&self) -> (p: Phy)
        ensures
            p.smi.mac_miiar == self.mac_miiar,
            p.smi.mac_miidr == self.mac_miidr,
            p.phy == PHY_ADDR,
    {
        Phy::new(self.mac_miiar, self.mac_miidr, PHY_ADDR)
    }

    /// Obtain PHY status from what its basic status register and its
    /// special status register read.
    pub fn status(&self, bsr: u16, ssr: u16) -> (status: PhyStatus)
        ensures
            status == status_of(bsr, ssr),
    {
        self.get_phy().status(bsr, ssr)
    }

    /// Is Rx DMA currently running?
    ///
    /// It stops if the ring is full. Call `recv_next()` to free an
    /// entry and to demand poll from the hardware.
    pub fn rx_is_running(&self) -> (b: bool)
        ensures
            b == (rx_state(self.dma_sr.field(DMASR_RPS_SHIFT, DMASR_RPS_MASK))
                == RunningState::Running),
    {
        self.rx_ring.running_state(&self.dma_sr).is_running()
    }

    /// Receive the next packet (if any is ready), or return an error
    /// immediately.
    pub fn recv_next(&mut self) -> (r: Result<RxPacket<'_>, RxError>)
        ensures
            old(self).rx_ring.wf(),
            final(self).rx_ring.wf(),
            *final(self) == (Eth {
                rx_ring: final(self).rx_ring,
                dma_rpdr: final(self).dma_rpdr,
                ..*old(self)
            }),
            final(self).dma_rpdr == if rx_state(
                old(self).dma_sr.field(DMASR_RPS_SHIFT, DMASR_RPS_MASK),
            ) == RunningState::Running {
                old(self).dma_rpdr
            } else {
                old(self).dma_rpdr.written(POLL_DEMAND)
            },
            match r {
                Ok(packet) => {
                    &&& old(self).rx_ring.recv_outcome() is Ok
                    &&& packet.wf()
                    &&& packet.length == old(self).rx_ring.head().desc.frame_length()
                    &&& *packet.entry == old(self).rx_ring.head()
                    &&& old(self).rx_ring.passed(&final(self).rx_ring, *final(packet.entry))
                },
                Err(RxError::WouldBlock) => {
                    &&& old(self).rx_ring.recv_outcome() == Err::<(), RxError>(RxError::WouldBlock)
                    &&& final(self).rx_ring == old(self).rx_ring
                },
                Err(RxError::Corrupted) => {
                    &&& old(self).rx_ring.recv_outcome() == Err::<(), RxError>(RxError::Corrupted)
                    &&& old(self).rx_ring.passed(
                        &final(self).rx_ring,
                        old(self).rx_ring.head().released(),
                    )
                },
            },
    {
        self.rx_ring.recv_next(&mut self.dma_rpdr, &self.dma_sr)
    }

    /// Is Tx DMA currently running?
    pub fn tx_is_running(&self) -> (b: bool)
        ensures
            b == (tx_state(self.dma_sr.field(DMASR_TPS_SHIFT, DMASR_TPS_MASK))
                == RunningState::Running),
    {
        self.tx_ring.is_running(&self.dma_sr)
    }

    /// Send a packet: hands `f` the first `length` bytes of the next free
    /// buffer, queues what it wrote, and demands a poll.
    ///
    /// A frame that is too long is refused without touching anything, the
    /// poll demand register included. A poll is demanded after an accepted
    /// frame, and also when the ring is full, to wake an engine that parked
    /// itself with frames still waiting.
    pub fn send<F: FnOnce(&mut [u8]) -> R, R>(&mut self, length: usize, f: F) -> (r: Result<
        R,
        TxError,
    >)
        requires
            forall|view: &mut [u8]| view@.len() == length ==> call_requires(f, (view,)),
        ensures
            old(self).tx_ring.wf(),
            final(self).tx_ring.wf(),
            match r {
                Ok(value) => {
                    &&& old(self).tx_ring.send_outcome(length as int) is Ok
                    &&& old(self).tx_ring.sent(&final(self).tx_ring, length as int)
                    &&& exists|view: &mut [u8]|
                        {
                            &&& view@ == old(self).tx_ring.head().buffer@.subrange(0, length as int)
                            &&& final(view)@ == final(self).tx_ring.entries()[old(
                                self,
                            ).tx_ring.cursor()].buffer@.subrange(0, length as int)
                            &&& call_ensures(f, (view,), value)
                        }
                    &&& *final(self) == (Eth {
                        tx_ring: final(self).tx_ring,
                        dma_tpdr: old(self).dma_tpdr.written(POLL_DEMAND),
                        ..*old(self)
                    })
                },
                Err(TxError::WouldBlock) => {
                    &&& old(self).tx_ring.send_outcome(length as int) == Err::<(), TxError>(
                        TxError::WouldBlock,
                    )
                    &&& *final(self) == (Eth {
                        dma_tpdr: old(self).dma_tpdr.written(POLL_DEMAND),
                        ..*old(self)
                    })
                },
                Err(TxError::TooLong) => {
                    &&& old(self).tx_ring.send_outcome(length as int) == Err::<(), TxError>(
                        TxError::TooLong,
                    )
                    &&& *final(self) == *old(self)
                },
            },
    {
        let result = self.tx_ring.send(length, f);
        if length <= MTU {
            self.tx_ring.demand_poll(&mut self.dma_tpdr);
        }
        result
    }
}

impl Eth {
    /// One token for the frame at the receive cursor, if there is one, and
    /// with it one token for a frame to send in reply.
    ///
    /// While the transmit ring is full no reply could be queued, so no
    /// frame is taken and nothing changes. Otherwise no token is made
    /// while the engine still owns the entry at the receive cursor, nor for
    /// a corrupted entry, which goes back to the engine at once.
    pub fn receive(&mut self) -> (r: Option<(EthRxToken<'_>, EthTxToken<'_>)>)
        ensures
            old(self).tx_ring.wf(),
            r is Some <==> old(self).tx_ring.head().desc.owner() == Owner::Cpu && old(
                self,
            ).rx_ring.recv_outcome() is Ok,
            old(self).tx_ring.head().desc.owner() == Owner::Dma ==> *final(self) == *old(self),
            old(self).tx_ring.head().desc.owner() == Owner::Cpu ==> {
                &&& old(self).rx_ring.wf()
                &&& final(self).rx_ring.wf()
                &&& final(self).dma_rpdr == if rx_state(
                    old(self).dma_sr.field(DMASR_RPS_SHIFT, DMASR_RPS_MASK),
                ) == RunningState::Running {
                    old(self).dma_rpdr
                } else {
                    old(self).dma_rpdr.written(POLL_DEMAND)
                }
            },
            match r {
                Some((rx, tx)) => {
                    &&& rx.packet.wf()
                    &&& rx.packet.length == old(self).rx_ring.head().desc.frame_length()
                    &&& *rx.packet.entry == old(self).rx_ring.head()
                    &&& old(self).rx_ring.passed(&final(self).rx_ring, *final(rx.packet.entry))
                    &&& *tx.tx_ring == old(self).tx_ring
                    &&& *tx.dma_tpdr == old(self).dma_tpdr
                    &&& *final(self) == (Eth {
                        rx_ring: final(self).rx_ring,
                        dma_rpdr: final(self).dma_rpdr,
                        tx_ring: *final(tx.tx_ring),
                        dma_tpdr: *final(tx.dma_tpdr),
                        ..*old(self)
                    })
                },
                None => {
                    &&& *final(self) == (Eth {
                        rx_ring: final(self).rx_ring,
                        dma_rpdr: final(self).dma_rpdr,
                        ..*old(self)
                    })
                    &&& old(self).tx_ring.head().desc.owner() == Owner::Cpu ==> match old(
                        self,
                    ).rx_ring.recv_outcome() {
                        Ok(_) => false,
                        Err(RxError::WouldBlock) => final(self).rx_ring == old(self).rx_ring,
                        Err(RxError::Corrupted) => old(self).rx_ring.passed(
                            &final(self).rx_ring,
                            old(self).rx_ring.head().released(),
                        ),
                    }
                },
            },
    {
        if self.tx_ring.is_full() {
            return None;
        }
        match self.rx_ring.recv_next(&mut self.dma_rpdr, &self.dma_sr) {
            Ok(packet) => Some(
                (
                    EthRxToken { packet },
                    EthTxToken { tx_ring: &mut self.tx_ring, dma_tpdr: &mut self.dma_tpdr },
                ),
            ),
            Err(_) => None,
        }
    }

    /// One token for a frame to send, unless the transmit ring is full;
    /// then nothing changes.
    pub fn transmit(&mut self) -> (r: Option<EthTxToken<'_>>)
        ensures
            old(self).tx_ring.wf(),
            r is Some <==> old(self).tx_ring.head().desc.owner() == Owner::Cpu,
            match r {
                Some(tx) => {
                    &&& *tx.tx_ring == old(self).tx_ring
                    &&& *tx.dma_tpdr == old(self).dma_tpdr
                    &&& *final(self) == (Eth {
                        tx_ring: *final(tx.tx_ring),
                        dma_tpdr: *final(tx.dma_tpdr),
                        ..*old(self)
                    })
                },
                None => *final(self) == *old(self),
            },
    {
        if self.tx_ring.is_full() {
            return None;
        }
        Some(EthTxToken { tx_ring: &mut self.tx_ring, dma_tpdr: &mut self.dma_tpdr })
    }
}

/// Call in interrupt handler to clear interrupt reason, when
/// `enable_interrupt()`.
///
/// There are two ways to call this:
///
/// * Via the `Eth` driver instance that your interrupt handler has access to.
/// * Directly on the image of the status register.
pub fn eth_interrupt_handler(dma_sr: &mut Register)
    ensures
        *final(dma_sr) == old(dma_sr).modified(0, DMASR_ACK),
{
    dma_sr.modify(0, DMASR_ACK);
}

} // verus!
