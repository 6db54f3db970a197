use ra4m1_core::timer::TimerFlag;
use ra4m1_core::timer::timer_period_count;

#[test]
fn one_overflow_yields_exactly_one_true_poll() {
    let mut f = TimerFlag::new();
    let e = f.on_overflow_interrupt(true);
    assert!(e.clear_overflow_status);
    assert!(e.clear_irq_pending);
    // the first poll sees the tick; later polls see nothing until the
    // next overflow
    assert!(f.poll_and_clear());
    assert!(!f.poll_and_clear());
    assert!(!f.poll_and_clear());
}

#[test]
fn spurious_interrupt_sets_nothing() {
    let mut f = TimerFlag::new();
    // the handler ran but the peripheral's overflow bit was clear
    let e = f.on_overflow_interrupt(false);
    assert!(!e.clear_overflow_status);
    assert!(e.clear_irq_pending);
    assert!(!f.poll_and_clear());
}

#[test]
fn overflows_coalesce_rather_than_queue() {
    let mut f = TimerFlag::new();
    f.on_overflow_interrupt(true);
    f.on_overflow_interrupt(true);
    f.on_overflow_interrupt(true);
    // three overflows between polls still yield a single true poll
    assert!(f.poll_and_clear());
    assert!(!f.poll_and_clear());
}

#[test]
fn one_second_period_at_48_mhz() {
    assert_eq!(timer_period_count(48_000_000), 47_999_999);
}
