use ra4m1_core::queue::QUEUE_CAPACITY;
use ra4m1_core::uart::UartDriver;
use ra4m1_core::uart::UartState;
use ra4m1_core::uart::baud_rate_divisor;

#[test]
fn transmit_cycle_returns_to_receive_only() {
    let mut d = UartDriver::new();
    assert_eq!(d.state, UartState::ReceiveOnly);
    let msg = b"HELLO";
    d.send(msg);
    assert_eq!(d.state, UartState::Transmitting);
    // one transmit-empty interrupt per message byte keeps transmitting
    for &b in msg.iter() {
        assert_eq!(d.on_tx_empty(), Some(b));
        assert_eq!(d.state, UartState::Transmitting);
    }
    // the transmission-complete interrupt returns the driver to rest
    d.on_tx_complete();
    assert_eq!(d.state, UartState::ReceiveOnly);
}

#[test]
fn empty_queue_moves_to_draining() {
    let mut d = UartDriver::new();
    d.send(b"A");
    assert_eq!(d.on_tx_empty(), Some(b'A'));
    // the queue is now empty: the next interrupt hands out no byte and
    // waits for the line to drain
    assert_eq!(d.on_tx_empty(), None);
    assert_eq!(d.state, UartState::DrainingLastByte);
    d.on_tx_complete();
    assert_eq!(d.state, UartState::ReceiveOnly);
}

#[test]
fn send_into_tight_queue_cuts_the_message() {
    let mut d = UartDriver::new();
    // leave only 4 free slots
    let filler = [b'x'; QUEUE_CAPACITY - 4];
    d.send(&filler);
    // a 10-byte message only fits its first 4 bytes; no panic, no overflow
    d.send(b"0123456789");
    let mut sent = Vec::new();
    while let Some(b) = d.on_tx_empty() {
        sent.push(b);
    }
    assert_eq!(sent.len(), QUEUE_CAPACITY);
    assert_eq!(&sent[..QUEUE_CAPACITY - 4], &filler[..]);
    assert_eq!(&sent[QUEUE_CAPACITY - 4..], b"0123");
}

#[test]
fn receive_overflow_drops_new_bytes() {
    let mut d = UartDriver::new();
    for i in 0..70u8 {
        d.on_rx_ready(i);
    }
    let got = d.drain_rx();
    // the queue keeps the first 64 bytes; later ones were dropped
    assert_eq!(got.len(), QUEUE_CAPACITY);
    for (i, &b) in got.iter().enumerate() {
        assert_eq!(b, i as u8);
    }
}

#[test]
fn drain_rx_empties_in_order() {
    let mut d = UartDriver::new();
    d.on_rx_ready(b'a');
    d.on_rx_ready(b'b');
    d.on_rx_ready(b'c');
    assert_eq!(d.drain_rx(), b"abc");
    assert_eq!(d.drain_rx(), b"");
}

#[test]
fn error_interrupt_leaves_driver_state_alone() {
    let mut d = UartDriver::new();
    d.on_rx_ready(b'z');
    d.send(b"Q");
    let report = d.on_error(0x38);
    assert_eq!(report.status, 0x38);
    assert!(report.clear_error_flags);
    // an on-wire error degrades data, never the driver
    assert_eq!(d.state, UartState::Transmitting);
    assert_eq!(d.on_tx_empty(), Some(b'Q'));
    assert_eq!(d.drain_rx(), b"z");
}

#[test]
fn baud_divisor_for_115200_at_48_mhz() {
    assert_eq!(baud_rate_divisor(48_000_000, 115200), 12);
}
