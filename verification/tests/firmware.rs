use ra4m1_core::firmware::Firmware;
use ra4m1_core::led::LONG_HIGH_NOPS;
use ra4m1_core::led::SHORT_HIGH_NOPS;
use ra4m1_core::uart::UartState;

#[test]
fn sixty_one_receive_interrupts_deliver_bytes_in_order() {
    let mut fw = Firmware::new();
    let ping = b"PING\r\n";
    // 61 receive-interrupt events, one byte each
    for i in 0..61 {
        fw.isr_rx_ready(ping[i % ping.len()]);
    }
    // a tick fires; the main loop drains what was received
    fw.isr_timer_overflow(true);
    assert!(fw.poll_tick());
    let out = fw.on_tick(235_000);
    assert_eq!(out.drained.len(), 61);
    for (i, &b) in out.drained.iter().enumerate() {
        assert_eq!(b, ping[i % ping.len()]);
    }
    assert_eq!(&out.drained[..6], b"PING\r\n");
}

#[test]
fn ping_bytes_drain_as_the_exact_six_byte_sequence() {
    let mut fw = Firmware::new();
    for &b in b"PING\r\n".iter() {
        fw.isr_rx_ready(b);
    }
    assert_eq!(fw.uart.drain_rx(), b"PING\r\n");
}

#[test]
fn tick_sends_temperature_and_drains_it_byte_by_byte() {
    let mut fw = Firmware::new();
    // one simulated timer overflow, then a reading of 23.5 degrees
    fw.isr_timer_overflow(true);
    assert!(fw.poll_tick());
    let out = fw.on_tick(235_000);
    assert_eq!(out.drained, b"");
    assert_eq!(fw.uart.state, UartState::Transmitting);
    // successive transmit-empty interrupts hand the message out byte by
    // byte
    let mut wire = Vec::new();
    while let Some(b) = fw.isr_tx_empty() {
        wire.push(b);
    }
    assert_eq!(wire, b" 23.5000 C\r\n");
    assert_eq!(fw.uart.state, UartState::DrainingLastByte);
    fw.isr_tx_complete();
    assert_eq!(fw.uart.state, UartState::ReceiveOnly);
}

#[test]
fn poll_without_overflow_is_false_and_polls_coalesce() {
    let mut fw = Firmware::new();
    assert!(!fw.poll_tick());
    fw.isr_timer_overflow(true);
    assert!(fw.poll_tick());
    assert!(!fw.poll_tick());
}

#[test]
fn tick_advances_the_led_cycle_and_encodes_the_shown_color() {
    let mut fw = Firmware::new();
    // first tick shows the first palette color: red 128 = 0b1000_0000,
    // so of the 24 bits only the first red bit (position 8) is one
    let out = fw.on_tick(0);
    assert_eq!(out.frame.len(), 24);
    for (i, p) in out.frame.iter().enumerate() {
        if i == 8 {
            assert_eq!(p.high_nops, LONG_HIGH_NOPS);
        } else {
            assert_eq!(p.high_nops, SHORT_HIGH_NOPS);
        }
    }
    assert_eq!(fw.led_index, 1);
    // seven ticks walk the whole rainbow and wrap around
    for _ in 0..6 {
        fw.on_tick(0);
    }
    assert_eq!(fw.led_index, 0);
}

#[test]
fn error_interrupt_is_reported_and_state_survives() {
    let mut fw = Firmware::new();
    fw.on_tick(100_000);
    let report = fw.isr_error(0x20);
    assert_eq!(report.status, 0x20);
    assert!(report.clear_error_flags);
    assert_eq!(fw.uart.state, UartState::Transmitting);
}
