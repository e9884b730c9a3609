use stm32_eth::rx::{RXDESC_0_CE, RXDESC_0_FS, RXDESC_0_LS, RXDESC_0_OE, RXDESC_0_OWN};
use stm32_eth::tx::{TXDESC_0_OWN, TXDESC_0_TCH, TXDESC_0_TER};
use stm32_eth::{
    EntryAddress, Owner, Register, RunningState, RxError, RxRing, RxRingEntry, TxError, TxRing,
    TxRingEntry, MTU,
};

const RUNNING: u32 = 0b011 << 17;

fn layout(n: usize, base: u32) -> Vec<EntryAddress> {
    (0..n as u32)
        .map(|i| EntryAddress {
            descriptor: base + 0x1000 * i,
            buffer: base + 0x1000 * i + 0x10,
        })
        .collect()
}

fn rx_ring(n: usize) -> RxRing {
    let mut ring = RxRing::new((0..n).map(|_| RxRingEntry::new()).collect());
    let mut rpdr = Register::new(0);
    let mut rdlar = Register::new(0);
    let mut omr = Register::new(0);
    ring.start(&layout(n, 0x2000_0000), &mut rpdr, &mut rdlar, &mut omr);
    ring
}

fn tx_ring(n: usize) -> TxRing {
    let mut ring = TxRing::new((0..n).map(|_| TxRingEntry::new()).collect());
    let mut tdlar = Register::new(0);
    let mut omr = Register::new(0);
    ring.start(&layout(n, 0x2001_0000), &mut tdlar, &mut omr);
    ring
}

/// The engine stores a frame in entry `index` and gives the entry back.
fn deposit(ring: &mut RxRing, index: usize, frame: &[u8], flags: u32) {
    let entry = ring.entry_mut(index);
    entry.buffer[..frame.len()].copy_from_slice(frame);
    entry.desc.desc.write(0, ((frame.len() as u32) << 16) | flags);
}

/// The engine reads the frame out of entry `index` and gives the entry back.
fn drain(ring: &mut TxRing, index: usize) -> Vec<u8> {
    let entry = ring.entry_mut(index);
    let length = (entry.desc.desc.read(1) & 0x1FFF) as usize;
    let word = entry.desc.desc.read(0);
    entry.desc.desc.write(0, word & !TXDESC_0_OWN);
    entry.buffer[..length].to_vec()
}

fn frame(n: usize) -> Vec<u8> {
    (0..n).map(|i| (i * 7 + 3) as u8).collect()
}

#[test]
fn received_frame_comes_out_once() {
    let mut rx = rx_ring(4);
    let _tx = tx_ring(4);
    let sent = frame(64);
    deposit(&mut rx, 0, &sent, RXDESC_0_FS | RXDESC_0_LS);

    let mut rpdr = Register::new(0);
    let sr = Register::new(RUNNING);
    {
        let packet = rx.recv_next(&mut rpdr, &sr).ok().unwrap();
        assert_eq!(packet.len(), 64);
        assert_eq!(packet.as_slice(), &sent[..]);
        packet.free();
    }
    assert_eq!(rx.next_entry(), 1);
    assert!(rx.entry(0).desc.is_owned());
    assert!(matches!(rx.recv_next(&mut rpdr, &sr), Err(RxError::WouldBlock)));
    assert_eq!(rx.next_entry(), 1);
    assert!(!rpdr.pending);
}

#[test]
fn nothing_ready_changes_nothing() {
    let mut rx = rx_ring(3);
    let before: Vec<Vec<u32>> = (0..3).map(|i| rx.entry(i).desc.desc.words().to_vec()).collect();
    let mut rpdr = Register::new(0);
    let sr = Register::new(RUNNING);
    for _ in 0..5 {
        assert!(matches!(rx.recv_next(&mut rpdr, &sr), Err(RxError::WouldBlock)));
    }
    assert_eq!(rx.next_entry(), 0);
    let after: Vec<Vec<u32>> = (0..3).map(|i| rx.entry(i).desc.desc.words().to_vec()).collect();
    assert_eq!(before, after);
}

#[test]
fn crc_error_is_corrupted_and_recycled() {
    let mut rx = rx_ring(4);
    deposit(&mut rx, 0, &frame(100), RXDESC_0_FS | RXDESC_0_LS | RXDESC_0_CE);
    let mut rpdr = Register::new(0);
    let sr = Register::new(RUNNING);
    assert!(matches!(rx.recv_next(&mut rpdr, &sr), Err(RxError::Corrupted)));
    assert!(rx.entry(0).desc.is_owned());
    assert_eq!(rx.entry(0).desc.desc.read(0), RXDESC_0_OWN);
    assert_eq!(rx.next_entry(), 1);
}

#[test]
fn overflow_error_is_corrupted() {
    let mut rx = rx_ring(2);
    deposit(&mut rx, 0, &frame(60), RXDESC_0_FS | RXDESC_0_LS | RXDESC_0_OE);
    let mut rpdr = Register::new(0);
    let sr = Register::new(RUNNING);
    assert!(matches!(rx.recv_next(&mut rpdr, &sr), Err(RxError::Corrupted)));
    assert!(rx.entry(0).desc.is_owned());
}

#[test]
fn declared_length_must_fit_the_buffer() {
    let mut rpdr = Register::new(0);
    let sr = Register::new(RUNNING);

    let mut rx = rx_ring(2);
    rx.entry_mut(0).desc.desc.write(0, 0);
    assert!(matches!(rx.recv_next(&mut rpdr, &sr), Err(RxError::Corrupted)));
    assert!(rx.entry(0).desc.is_owned());

    let mut rx = rx_ring(2);
    rx.entry_mut(0).desc.desc.write(0, 1523 << 16);
    assert!(matches!(rx.recv_next(&mut rpdr, &sr), Err(RxError::Corrupted)));
    assert!(rx.entry(0).desc.is_owned());

    let mut rx = rx_ring(2);
    rx.entry_mut(0).desc.desc.write(0, 0x3FFF << 16);
    assert!(matches!(rx.recv_next(&mut rpdr, &sr), Err(RxError::Corrupted)));

    let mut rx = rx_ring(2);
    deposit(&mut rx, 0, &frame(MTU), RXDESC_0_FS | RXDESC_0_LS);
    let packet = rx.recv_next(&mut rpdr, &sr).ok().unwrap();
    assert_eq!(packet.len(), 1522);
    assert_eq!(packet.as_slice(), &frame(MTU)[..]);

    let mut rx = rx_ring(2);
    deposit(&mut rx, 0, &frame(1), 0);
    let packet = rx.recv_next(&mut rpdr, &sr).ok().unwrap();
    assert_eq!(packet.len(), 1);
    assert_eq!(packet.as_slice(), &[3u8][..]);
}

#[test]
fn packet_keeps_the_entry_until_freed() {
    let mut rx = rx_ring(2);
    deposit(&mut rx, 0, &frame(10), RXDESC_0_FS | RXDESC_0_LS);
    let mut rpdr = Register::new(0);
    let sr = Register::new(RUNNING);
    {
        let packet = rx.recv_next(&mut rpdr, &sr).ok().unwrap();
        assert!(!packet.entry.desc.is_owned());
        assert_eq!(packet.entry.desc.get_frame_len(), 10);
        packet.free();
    }
    assert!(rx.entry(0).desc.is_owned());
    assert_eq!(&rx.entry(0).as_slice()[..10], &frame(10)[..]);
}

#[test]
fn receive_cursor_goes_round_in_order() {
    let n = 4;
    let mut rx = rx_ring(n);
    let mut rpdr = Register::new(0);
    let sr = Register::new(RUNNING);
    for k in 0..(2 * n + 1) {
        assert_eq!(rx.next_entry(), k % n);
        let bytes = vec![k as u8; 20 + k];
        deposit(&mut rx, k % n, &bytes, RXDESC_0_FS | RXDESC_0_LS);
        let packet = rx.recv_next(&mut rpdr, &sr).ok().unwrap();
        assert_eq!(packet.as_slice(), &bytes[..]);
        packet.free();
    }
    assert_eq!(rx.next_entry(), (2 * n + 1) % n);
}

#[test]
fn corrupted_entries_keep_the_cursor_in_order() {
    let n = 3;
    let mut rx = rx_ring(n);
    let mut rpdr = Register::new(0);
    let sr = Register::new(RUNNING);
    deposit(&mut rx, 0, &frame(30), RXDESC_0_CE);
    deposit(&mut rx, 1, &frame(31), RXDESC_0_FS | RXDESC_0_LS);
    assert!(matches!(rx.recv_next(&mut rpdr, &sr), Err(RxError::Corrupted)));
    assert_eq!(rx.next_entry(), 1);
    let packet = rx.recv_next(&mut rpdr, &sr).ok().unwrap();
    assert_eq!(packet.len(), 31);
    packet.free();
    assert_eq!(rx.next_entry(), 2);
}

#[test]
fn parked_receive_process_is_told_to_poll() {
    let mut rx = rx_ring(2);
    let mut rpdr = Register::new(0);
    let suspended = Register::new(0b100 << 17);
    assert!(matches!(rx.recv_next(&mut rpdr, &suspended), Err(RxError::WouldBlock)));
    assert_eq!(rpdr, Register { value: 1, pending: true });

    let mut rpdr = Register::new(0);
    let running = Register::new(0b111 << 17);
    assert!(matches!(rx.recv_next(&mut rpdr, &running), Err(RxError::WouldBlock)));
    assert_eq!(rpdr, Register { value: 0, pending: false });
}

#[test]
fn too_long_frame_is_refused_untouched() {
    let mut tx = tx_ring(4);
    let before: Vec<Vec<u32>> = (0..4).map(|i| tx.entry(i).desc.desc.words().to_vec()).collect();
    let mut called = false;
    let r = tx.send(1600, |_buf: &mut [u8]| {
        called = true;
    });
    assert_eq!(r, Err(TxError::TooLong));
    assert!(!called);
    assert_eq!(tx.next_entry(), 0);
    let after: Vec<Vec<u32>> = (0..4).map(|i| tx.entry(i).desc.desc.words().to_vec()).collect();
    assert_eq!(before, after);
    assert_eq!(tx.send(1523, |_buf: &mut [u8]| ()), Err(TxError::TooLong));
    assert_eq!(tx.send(1522, |buf: &mut [u8]| buf.len()), Ok(1522));
}

#[test]
fn too_long_wins_over_a_full_ring() {
    let mut tx = tx_ring(1);
    assert_eq!(tx.send(10, |_buf: &mut [u8]| ()), Ok(()));
    assert_eq!(tx.send(10, |_buf: &mut [u8]| ()), Err(TxError::WouldBlock));
    assert_eq!(tx.send(2000, |_buf: &mut [u8]| ()), Err(TxError::TooLong));
}

#[test]
fn sent_frame_reaches_the_engine() {
    let mut tx = tx_ring(4);
    let bytes = frame(60);
    let r = tx.send(60, |buf: &mut [u8]| {
        assert_eq!(buf.len(), 60);
        buf.copy_from_slice(&bytes);
        42u8
    });
    assert_eq!(r, Ok(42));
    assert_eq!(tx.next_entry(), 1);
    let entry = tx.entry(0);
    assert!(entry.desc.is_owned());
    assert_eq!(entry.desc.desc.read(0), 0xF000_0000 | TXDESC_0_TCH);
    assert_eq!(entry.desc.desc.read(1), 60);
    assert_eq!(entry.desc.desc.read(2), 0x2001_0010);
    assert_eq!(entry.desc.desc.read(3), 0x2001_1000);
    assert_eq!(drain(&mut tx, 0), bytes);
}

#[test]
fn fill_sees_only_the_declared_length() {
    let mut tx = tx_ring(2);
    tx.entry_mut(0).buffer[100] = 0xAA;
    let r = tx.send(100, |buf: &mut [u8]| {
        for b in buf.iter_mut() {
            *b = 0x55;
        }
        buf.len()
    });
    assert_eq!(r, Ok(100));
    assert_eq!(tx.entry(0).as_slice()[99], 0x55);
    assert_eq!(tx.entry(0).as_slice()[100], 0xAA);
    assert_eq!(tx.entry(0).as_slice()[101], 0);
}

#[test]
fn empty_frame_is_queued() {
    let mut tx = tx_ring(2);
    assert_eq!(tx.send(0, |buf: &mut [u8]| buf.len()), Ok(0));
    assert!(tx.entry(0).desc.is_owned());
    assert_eq!(tx.entry(0).desc.desc.read(1), 0);
    assert_eq!(tx.next_entry(), 1);
}

#[test]
fn length_replaces_the_one_before() {
    let mut tx = tx_ring(1);
    assert_eq!(tx.send(1500, |_buf: &mut [u8]| ()), Ok(()));
    drain(&mut tx, 0);
    assert_eq!(tx.send(64, |_buf: &mut [u8]| ()), Ok(()));
    assert_eq!(tx.entry(0).desc.desc.read(1), 64);
    assert_eq!(tx.entry(0).desc.desc.read(0), 0xF000_0000 | TXDESC_0_TCH | TXDESC_0_TER);
}

#[test]
fn full_ring_blocks_until_the_oldest_is_drained() {
    let n = 4;
    let mut tx = tx_ring(n);
    for k in 0..n {
        let r = tx.send(60 + k, |buf: &mut [u8]| {
            buf[0] = k as u8;
        });
        assert_eq!(r, Ok(()));
    }
    assert_eq!(tx.next_entry(), 0);
    let mut called = false;
    assert_eq!(
        tx.send(60, |_buf: &mut [u8]| {
            called = true;
        }),
        Err(TxError::WouldBlock)
    );
    assert!(!called);
    assert_eq!(tx.next_entry(), 0);

    let oldest = drain(&mut tx, 0);
    assert_eq!(oldest.len(), 60);
    assert_eq!(oldest[0], 0);
    assert_eq!(tx.send(61, |_buf: &mut [u8]| ()), Ok(()));
    assert_eq!(tx.next_entry(), 1);
    assert_eq!(tx.send(61, |_buf: &mut [u8]| ()), Err(TxError::WouldBlock));
}

#[test]
fn draining_another_entry_does_not_unblock() {
    let n = 3;
    let mut tx = tx_ring(n);
    for _ in 0..n {
        assert_eq!(tx.send(10, |_buf: &mut [u8]| ()), Ok(()));
    }
    drain(&mut tx, 1);
    assert_eq!(tx.send(10, |_buf: &mut [u8]| ()), Err(TxError::WouldBlock));
}

#[test]
fn transmit_cursor_goes_round_in_order() {
    let n = 4;
    let mut tx = tx_ring(n);
    for k in 0..(2 * n + 1) {
        assert_eq!(tx.next_entry(), k % n);
        let r = tx.send(64, |buf: &mut [u8]| {
            buf[0] = k as u8;
        });
        assert_eq!(r, Ok(()));
        assert_eq!(tx.next_entry(), (k + 1) % n);
        let out = drain(&mut tx, k % n);
        assert_eq!(out[0], k as u8);
    }
}

#[test]
fn one_entry_ring_wraps_onto_itself() {
    let mut tx = tx_ring(1);
    for _ in 0..3 {
        assert_eq!(tx.next_entry(), 0);
        assert_eq!(tx.send(8, |_buf: &mut [u8]| ()), Ok(()));
        assert_eq!(tx.next_entry(), 0);
        drain(&mut tx, 0);
    }
    let mut rx = rx_ring(1);
    assert_eq!(rx.entry(0).desc.desc.read(3), 0x2000_0000);
    let mut rpdr = Register::new(0);
    let sr = Register::new(RUNNING);
    deposit(&mut rx, 0, &frame(5), 0);
    rx.recv_next(&mut rpdr, &sr).ok().unwrap().free();
    assert_eq!(rx.next_entry(), 0);
}

#[test]
fn start_arms_the_receive_descriptors() {
    let mut ring = RxRing::new((0..3).map(|_| RxRingEntry::new()).collect());
    let mut rpdr = Register::new(0);
    let mut rdlar = Register::new(0);
    let mut omr = Register::new(0x0000_0080);
    ring.start(&layout(3, 0x2000_0000), &mut rpdr, &mut rdlar, &mut omr);

    assert_eq!(ring.len(), 3);
    assert_eq!(ring.next_entry(), 0);
    assert_eq!(
        ring.entry(0).desc.desc.words(),
        &[0x8000_0000, 0x0000_4000 | 1522, 0x2000_0010, 0x2000_1000]
    );
    assert_eq!(
        ring.entry(1).desc.desc.words(),
        &[0x8000_0000, 0x0000_4000 | 1522, 0x2000_1010, 0x2000_2000]
    );
    assert_eq!(
        ring.entry(2).desc.desc.words(),
        &[0x8000_0000, 0x0000_C000 | 1522, 0x2000_2010, 0x2000_0000]
    );
    assert_eq!(rdlar, Register { value: 0x2000_0000, pending: true });
    assert_eq!(omr, Register { value: 0x0000_0082, pending: true });
    assert_eq!(rpdr, Register { value: 1, pending: true });
}

#[test]
fn start_arms_the_transmit_descriptors() {
    let mut ring = TxRing::new((0..2).map(|_| TxRingEntry::new()).collect());
    ring.entry_mut(1).desc.desc.write(0, 0xFFFF_FFFF);
    let mut tdlar = Register::new(0);
    let mut omr = Register::new(0x0000_0002);
    ring.start(&layout(2, 0x2001_0000), &mut tdlar, &mut omr);

    assert_eq!(ring.len(), 2);
    assert_eq!(ring.entry(0).desc.desc.words(), &[0x0010_0000, 0, 0x2001_0010, 0x2001_1000]);
    assert_eq!(ring.entry(1).desc.desc.words(), &[0x0030_0000, 0, 0x2001_1010, 0x2001_0000]);
    assert!(!ring.entry(0).desc.is_owned());
    assert!(!ring.entry(1).desc.is_owned());
    assert_eq!(tdlar, Register { value: 0x2001_0000, pending: true });
    assert_eq!(omr, Register { value: 0x0000_2002, pending: true });
}

#[test]
fn start_rewinds_the_cursor() {
    let mut tx = tx_ring(3);
    assert_eq!(tx.send(10, |_buf: &mut [u8]| ()), Ok(()));
    assert_eq!(tx.next_entry(), 1);
    let mut tdlar = Register::new(0);
    let mut omr = Register::new(0);
    tx.start(&layout(3, 0x2001_0000), &mut tdlar, &mut omr);
    assert_eq!(tx.next_entry(), 0);
    assert!(!tx.entry(0).desc.is_owned());
}

#[test]
fn owner_is_the_ownership_bit() {
    let mut rx = rx_ring(1);
    for word in [0u32, 0x7FFF_FFFF, 0x0040_0300, 1] {
        rx.entry_mut(0).desc.desc.write(0, word);
        assert!(!rx.entry(0).desc.is_owned());
    }
    for word in [0x8000_0000u32, 0xFFFF_FFFF, 0x8040_0300] {
        rx.entry_mut(0).desc.desc.write(0, word);
        assert!(rx.entry(0).desc.is_owned());
    }
    let mut tx = tx_ring(1);
    tx.entry_mut(0).desc.desc.write(0, 0x7FFF_FFFF);
    assert!(!tx.entry(0).desc.is_owned());
    tx.entry_mut(0).desc.desc.write(0, 0x8000_0000);
    assert!(tx.entry(0).desc.is_owned());
    assert_ne!(Owner::Cpu, Owner::Dma);
}

#[test]
fn repeated_poll_demand_is_one_poll_demand() {
    let tx = tx_ring(2);
    let mut tpdr = Register::new(0);
    tx.demand_poll(&mut tpdr);
    let once = tpdr;
    tx.demand_poll(&mut tpdr);
    tx.demand_poll(&mut tpdr);
    assert_eq!(tpdr, once);
    assert_eq!(tpdr, Register { value: 1, pending: true });
    assert_eq!(tpdr.take_write(), Some(1));
    assert_eq!(tpdr.take_write(), None);

    let rx = rx_ring(2);
    let mut rpdr = Register::new(7);
    rx.demand_poll(&mut rpdr);
    let once = rpdr;
    rx.demand_poll(&mut rpdr);
    assert_eq!(rpdr, once);
}

#[test]
fn running_states_follow_the_status_register() {
    let rx = rx_ring(1);
    let expect = [
        RunningState::Stopped,
        RunningState::Running,
        RunningState::Unknown,
        RunningState::Running,
        RunningState::Suspended,
        RunningState::Running,
        RunningState::Unknown,
        RunningState::Running,
    ];
    for (rps, state) in expect.iter().enumerate() {
        let sr = Register::new(((rps as u32) << 17) | 0xFFF1_FFFF);
        assert_eq!(rx.running_state(&sr), *state);
    }
    let tx = tx_ring(1);
    let expect = [
        RunningState::Stopped,
        RunningState::Running,
        RunningState::Running,
        RunningState::Running,
        RunningState::Unknown,
        RunningState::Unknown,
        RunningState::Suspended,
        RunningState::Running,
    ];
    for (tps, state) in expect.iter().enumerate() {
        let sr = Register::new(((tps as u32) << 20) | 0xFF8F_FFFF);
        assert_eq!(tx.running_state(&sr), *state);
        assert_eq!(tx.is_running(&sr), *state == RunningState::Running);
    }
    assert!(RunningState::Running.is_running());
    assert!(!RunningState::Suspended.is_running());
    assert!(!RunningState::Stopped.is_running());
    assert!(!RunningState::Unknown.is_running());
}

#[test]
fn ring_is_full_while_the_cursor_entry_waits() {
    let mut tx = tx_ring(2);
    assert!(!tx.is_full());
    assert_eq!(tx.send(10, |_buf: &mut [u8]| ()), Ok(()));
    assert!(!tx.is_full());
    assert_eq!(tx.send(10, |_buf: &mut [u8]| ()), Ok(()));
    assert!(tx.is_full());
    drain(&mut tx, 1);
    assert!(tx.is_full());
    drain(&mut tx, 0);
    assert!(!tx.is_full());
}
