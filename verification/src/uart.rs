//! UART transceiver driver.
//!
//! Two byte queues (receive and transmit) and the handlers for the four
//! interrupt sources of the serial interface, built around a three-state
//! transmit machine. The machine's state decides which transmit interrupt
//! is unmasked: the transmit-data-empty interrupt while bytes remain, the
//! transmission-complete interrupt while the last byte drains out of the
//! shift register, and neither at rest. Callers read the hardware data and
//! status registers, hand the plain values in, and program the interrupt
//! enables from the state these functions return.

use vstd::prelude::*;
use crate::queue::ByteQueue;
use crate::queue::QUEUE_CAPACITY;

verus! {

/// Transmit state of the driver. It governs the interrupt enables: the
/// receive interrupt is always on; the transmit-data-empty and the
/// transmission-complete interrupts are each on in exactly one state.
#[derive(Clone, Copy, Debug, PartialEq, Eq, Structural)]
pub enum UartState {
    /// At rest: transmitter off, both transmit interrupts masked.
    ReceiveOnly,
    /// Bytes remain in the transmit queue: transmit-data-empty unmasked.
    Transmitting,
    /// The queue is empty but the last byte is still shifting out on the
    /// wire: transmission-complete unmasked.
    DrainingLastByte,
}

/// Whether the transmit-data-empty interrupt is unmasked in a state.
pub open spec fn txi_enabled(s: UartState) -> bool {
    s is Transmitting
}

/// Whether the transmission-complete interrupt is unmasked in a state.
pub open spec fn tei_enabled(s: UartState) -> bool {
    s is DrainingLastByte
}

/// Whether the transmitter itself is enabled in a state.
pub open spec fn transmitter_enabled(s: UartState) -> bool {
    !(s is ReceiveOnly)
}

/// Free slots of a transmit queue with the given contents.
pub open spec fn free_slots(tx: Seq<u8>) -> int {
    QUEUE_CAPACITY - tx.len()
}

/// How many bytes of a message fit into a transmit queue with the given
/// contents: all of them, or as many as there are free slots.
pub open spec fn enqueued_count(tx: Seq<u8>, msg: Seq<u8>) -> int {
    if msg.len() <= free_slots(tx) {
        msg.len() as int
    } else {
        free_slots(tx)
    }
}

/// The prefix of a message that a send into a transmit queue with the
/// given contents enqueues; the rest is dropped (backpressure, not an
/// error).
pub open spec fn pushed_prefix(tx: Seq<u8>, msg: Seq<u8>) -> Seq<u8> {
    msg.take(enqueued_count(tx, msg))
}

/// Transmit queue contents after one transmit-data-empty interrupt.
pub open spec fn drain_step(tx: Seq<u8>) -> Seq<u8> {
    if tx.len() > 0 {
        tx.drop_first()
    } else {
        tx
    }
}

/// Transmit queue contents after `n` transmit-data-empty interrupts.
pub open spec fn drain_steps(tx: Seq<u8>, n: nat) -> Seq<u8>
    decreases n,
{
    if n == 0 {
        tx
    } else {
        drain_steps(drain_step(tx), (n - 1) as nat)
    }
}

/// State after a transmit-data-empty interrupt found the given transmit
/// queue contents: keep transmitting while a byte was handed to the data
/// register, otherwise wait for the line to drain.
pub open spec fn tx_empty_next_state(tx: Seq<u8>) -> UartState {
    if tx.len() > 0 {
        UartState::Transmitting
    } else {
        UartState::DrainingLastByte
    }
}

/// Report the error interrupt handler returns for the main loop to log,
/// with the hardware effects its caller must perform.
pub struct LinkErrorReport {
    /// The raw error status read from the hardware (latched parity,
    /// framing and overrun bits), reported without interpretation.
    pub status: u8,
    /// Clear all latched error status flags before returning.
    pub clear_error_flags: bool,
}

/// The UART driver: receive and transmit queues plus the transmit state.
pub struct UartDriver {
    /// Transmit state; decides which transmit interrupt is unmasked.
    pub state: UartState,
    /// Bytes received from the wire, awaiting the main loop.
    pub rx: ByteQueue,
    /// Bytes awaiting the transmit-data-empty interrupt.
    pub tx: ByteQueue,
}

impl UartDriver {
    /// Both queues well-formed.
    pub open spec fn wf(&self) -> bool {
        self.rx.wf() && self.tx.wf()
    }

    /// The driver at reset: receive interrupt enabled, transmit interrupts
    /// disabled, both queues empty.
    pub fn new() -> (d: UartDriver)
        ensures
            d.wf(),
            d.state is ReceiveOnly,
            d.rx@ == Seq::<u8>::empty(),
            d.tx@ == Seq::<u8>::empty(),
    {
        UartDriver { state: UartState::ReceiveOnly, rx: ByteQueue::new(), tx: ByteQueue::new() }
    }

    /// Send request, called only from the main-loop context: enqueues every
    /// byte of the message that fits into the transmit queue (a message
    /// larger than the free slots is cut, never blocks), then starts the
    /// transmitter by moving to `Transmitting`.
    pub fn send(&mut self, msg: &[u8])
        requires
            old(self).wf(),
        ensures
            final(self).wf(),
            final(self).state is Transmitting,
            final(self).tx@ == old(self).tx@ + pushed_prefix(old(self).tx@, msg@),
            final(self).tx@.len() == old(self).tx@.len() + enqueued_count(old(self).tx@, msg@),
            final(self).rx@ == old(self).rx@,
    {
        let ghost tx0 = self.tx@;
        let ghost rx0 = self.rx@;
        let ghost st0 = self.state;
        proof {
            self.tx.lemma_len_bounded();
            assert(self.tx@ =~= tx0 + pushed_prefix(tx0, msg@.take(0)));
        }
        let mut i: usize = 0;
        while i < msg.len()
            invariant
                self.wf(),
                i <= msg@.len(),
                tx0.len() <= QUEUE_CAPACITY,
                self.rx@ == rx0,
                self.state == st0,
                self.tx@ == tx0 + pushed_prefix(tx0, msg@.take(i as int)),
            decreases msg@.len() - i,
        {
            let _ok = self.tx.try_push(msg[i]);
            proof {
                let m = enqueued_count(tx0, msg@.take(i as int));
                assert(msg@.take(i + 1) =~= msg@.take(i as int).push(msg@[i as int]));
                if tx0.len() + m < QUEUE_CAPACITY {
                    // there was room: the push succeeded and the enqueued
                    // prefix grows by this byte
                    assert(enqueued_count(tx0, msg@.take(i + 1)) == m + 1);
                    assert(self.tx@ =~= tx0 + pushed_prefix(tx0, msg@.take(i + 1)));
                } else {
                    // the queue was already full: the byte was dropped
                    assert(enqueued_count(tx0, msg@.take(i + 1)) == m);
                    assert(msg@.take(i + 1).take(m) =~= msg@.take(i as int).take(m));
                    assert(self.tx@ =~= tx0 + pushed_prefix(tx0, msg@.take(i + 1)));
                }
            }
            i = i + 1;
        }
        proof {
            assert(msg@.take(msg@.len() as int) =~= msg@);
        }
        self.state = UartState::Transmitting;
    }

    /// Receive-data-ready interrupt handler: queues the byte read from the
    /// hardware data register; a byte that finds the queue full is
    /// silently dropped (the documented overflow policy). The transmit
    /// state is untouched.
    pub fn on_rx_ready(&mut self, byte: u8)
        requires
            old(self).wf(),
        ensures
            final(self).wf(),
            final(self).state == old(self).state,
            final(self).tx@ == old(self).tx@,
            old(self).rx@.len() < QUEUE_CAPACITY ==> final(self).rx@ == old(self).rx@.push(byte),
            old(self).rx@.len() >= QUEUE_CAPACITY ==> final(self).rx@ == old(self).rx@,
    {
        let _ok = self.rx.try_push(byte);
    }

    /// Transmit-data-empty interrupt handler: pops the transmit queue. A
    /// popped byte is returned for the caller to write to the hardware
    /// data register, and the driver keeps transmitting; an empty queue
    /// moves the driver to `DrainingLastByte`, because the hardware
    /// signals an empty data register one byte-time before the final byte
    /// has left the wire.
    pub fn on_tx_empty(&mut self) -> (r: Option<u8>)
        requires
            old(self).wf(),
        ensures
            final(self).wf(),
            final(self).state == tx_empty_next_state(old(self).tx@),
            final(self).tx@ == drain_step(old(self).tx@),
            final(self).rx@ == old(self).rx@,
            old(self).tx@.len() > 0 ==> r == Some(old(self).tx@[0]),
            old(self).tx@.len() == 0 ==> r is None,
    {
        let r = self.tx.try_pop();
        match r {
            Some(_) => {
                self.state = UartState::Transmitting;
            },
            None => {
                self.state = UartState::DrainingLastByte;
            },
        }
        r
    }

    /// Transmission-complete interrupt handler: the last byte is on the
    /// wire, so disable both transmit interrupts and the transmitter and
    /// return to `ReceiveOnly`.
    pub fn on_tx_complete(&mut self)
        requires
            old(self).wf(),
        ensures
            final(self).wf(),
            final(self).state is ReceiveOnly,
            final(self).tx@ == old(self).tx@,
            final(self).rx@ == old(self).rx@,
    {
        self.state = UartState::ReceiveOnly;
    }

    /// Error interrupt handler: reports the raw error status for logging
    /// and directs the caller to clear the latched error flags. An on-wire
    /// error degrades data quality but must not stall the driver, so state
    /// and queues are untouched.
    pub fn on_error(&mut self, status: u8) -> (e: LinkErrorReport)
        requires
            old(self).wf(),
        ensures
            final(self).wf(),
            final(self).state == old(self).state,
            final(self).tx@ == old(self).tx@,
            final(self).rx@ == old(self).rx@,
            e.status == status,
            e.clear_error_flags,
    {
        LinkErrorReport { status, clear_error_flags: true }
    }

    /// Drains every pending received byte, oldest first, for the main loop
    /// to report.
    pub fn drain_rx(&mut self) -> (out: Vec<u8>)
        requires
            old(self).wf(),
        ensures
            final(self).wf(),
            final(self).state == old(self).state,
            final(self).tx@ == old(self).tx@,
            final(self).rx@ == Seq::<u8>::empty(),
            out@ == old(self).rx@,
    {
        let ghost rx0 = self.rx@;
        let mut out: Vec<u8> = Vec::new();
        while self.rx.len() > 0
            invariant
                self.wf(),
                self.state == old(self).state,
                self.tx@ == old(self).tx@,
                out@ + self.rx@ == rx0,
            decreases self.rx@.len(),
        {
            let b = self.rx.try_pop();
            match b {
                Some(byte) => {
                    out.push(byte);
                    proof {
                        assert(out@ + self.rx@ =~= rx0);
                    }
                },
                None => {},
            }
        }
        proof {
            assert(out@ =~= rx0);
        }
        out
    }
}

/// Baud rate register value for the internal generator in its base
/// configuration, where one bit period is 16 cycles of twice-divided base
/// clock: the divisor is the peripheral clock over 32 times the baud rate,
/// less one.
pub fn baud_rate_divisor(pclk_hz: u32, baud: u32) -> (n: u32)
    requires
        baud >= 1,
        32 * (baud as int) <= pclk_hz as int,
    ensures
        n as int == pclk_hz as int / (32 * (baud as int)) - 1,
{
    let d = (pclk_hz as u64) / (32 * (baud as u64));
    proof {
        vstd::arithmetic::div_mod::lemma_div_non_zero(pclk_hz as int, 32 * (baud as int));
        vstd::arithmetic::div_mod::lemma_div_nonincreasing(pclk_hz as int, 32 * (baud as int));
    }
    (d - 1) as u32
}

/// Law: the two transmit interrupt sources are never both unmasked — each
/// is enabled in exactly one of the three driver states.
pub proof fn lemma_tx_interrupts_exclusive(s: UartState)
    ensures
        !(txi_enabled(s) && tei_enabled(s)),
{
}

/// After `n` transmit-data-empty interrupts, `n` leading bytes are gone.
pub proof fn lemma_drain_steps(tx: Seq<u8>, n: nat)
    requires
        n <= tx.len(),
    ensures
        drain_steps(tx, n) == tx.skip(n as int),
    decreases n,
{
    if n == 0 {
        assert(drain_steps(tx, n) =~= tx.skip(0));
    } else {
        lemma_drain_steps(tx.drop_first(), (n - 1) as nat);
        assert(tx.drop_first().skip(n - 1) =~= tx.skip(n as int));
    }
}

/// Law: one full transmit cycle returns the driver to rest. From
/// `ReceiveOnly` with an empty transmit queue, a send of a message that
/// fits enqueues the whole message; each of the following transmit-empty
/// interrupts hands out one byte and keeps the driver in `Transmitting`,
/// the interrupt after the last byte moves it to `DrainingLastByte`, and
/// the transmission-complete interrupt returns it to `ReceiveOnly`. At no
/// point are both transmit interrupts unmasked.
pub proof fn lemma_transmit_cycle(msg: Seq<u8>)
    requires
        msg.len() <= QUEUE_CAPACITY,
    ensures
        pushed_prefix(Seq::<u8>::empty(), msg) == msg,
        forall|k: nat| k < msg.len() ==> tx_empty_next_state(drain_steps(msg, k)) is Transmitting,
        drain_steps(msg, msg.len()) == Seq::<u8>::empty(),
        tx_empty_next_state(drain_steps(msg, msg.len())) is DrainingLastByte,
        forall|s: UartState| !(txi_enabled(s) && tei_enabled(s)),
{
    assert(pushed_prefix(Seq::<u8>::empty(), msg) =~= msg);
    assert forall|k: nat| k < msg.len() implies tx_empty_next_state(drain_steps(msg, k)) is Transmitting by {
        lemma_drain_steps(msg, k);
    }
    lemma_drain_steps(msg, msg.len());
    assert(drain_steps(msg, msg.len()) =~= Seq::<u8>::empty());
}

} // verus!
