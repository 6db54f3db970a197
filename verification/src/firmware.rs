//! The firmware core: the timer flag, the UART driver and the LED
//! animation, with the cooperative main-loop step that ties them together.
//!
//! The main loop never blocks except while replaying an LED frame: each
//! pass polls the one-shot tick flag and, when it fired, sends the current
//! temperature reading down the serial link, drains and reports the
//! pending received bytes, and advances the LED animation by one color.
//! The interrupt handlers are the `isr_` methods; the platform invokes
//! each from its vector-table entry with the values read from the
//! hardware, and performs the effects the methods return.

use vstd::prelude::*;
use crate::led::Pulse;
use crate::led::Rgb;
use crate::led::frame_pulses;
use crate::led::encode_frame;
use crate::led::rainbow_palette;
use crate::led::spec_rainbow;
use crate::text::format_temperature;
use crate::text::spec_temp_message;
use crate::timer::TimerFlag;
use crate::timer::TimerIsrEffect;
use crate::uart::LinkErrorReport;
use crate::uart::UartDriver;
use crate::uart::drain_step;
use crate::uart::pushed_prefix;
use crate::uart::tx_empty_next_state;
use crate::queue::QUEUE_CAPACITY;

verus! {

/// Everything the main loop must do after one tick: the bytes drained
/// from the receive queue (to report), and the LED pulse train to replay
/// on the GPIO line with interrupts disabled.
pub struct TickOutput {
    pub drained: Vec<u8>,
    pub frame: Vec<Pulse>,
}

/// The interrupt-driven I/O core: tick flag, UART driver, LED animation
/// state.
pub struct Firmware {
    /// One-shot "timer fired" flag shared with the overflow handler.
    pub timer: TimerFlag,
    /// The serial driver with its two queues and transmit state.
    pub uart: UartDriver,
    /// Position of the next color in the palette.
    pub led_index: usize,
    /// The color cycle the LED steps through, one color per tick.
    pub palette: Vec<Rgb<u8>>,
}

impl Firmware {
    /// The queues are well-formed, the palette is not empty, and the
    /// animation index is in range.
    pub open spec fn wf(&self) -> bool {
        &&& self.uart.wf()
        &&& self.palette@.len() >= 1
        &&& self.led_index < self.palette@.len()
    }

    /// The core at reset: no tick recorded, driver at rest with empty
    /// queues, animation at the first color of the rainbow cycle.
    pub fn new() -> (fw: Firmware)
        ensures
            fw.wf(),
            !fw.timer.is_set(),
            fw.uart.state is ReceiveOnly,
            fw.uart.rx@ == Seq::<u8>::empty(),
            fw.uart.tx@ == Seq::<u8>::empty(),
            fw.led_index == 0,
            fw.palette@ == spec_rainbow(),
    {
        Firmware {
            timer: TimerFlag::new(),
            uart: UartDriver::new(),
            led_index: 0,
            palette: rainbow_palette(),
        }
    }

    /// Timer-overflow interrupt handler: records the tick iff the
    /// peripheral's overflow status bit was set; the caller must clear
    /// that bit and the interrupt controller's pending indication as the
    /// returned effect directs.
    pub fn isr_timer_overflow(&mut self, overflow_status: bool) -> (e: TimerIsrEffect)
        requires
            old(self).wf(),
        ensures
            final(self).wf(),
            final(self).timer.is_set() == (old(self).timer.is_set() || overflow_status),
            e.clear_overflow_status == overflow_status,
            e.clear_irq_pending,
            final(self).uart == old(self).uart,
            final(self).led_index == old(self).led_index,
            final(self).palette == old(self).palette,
    {
        self.timer.on_overflow_interrupt(overflow_status)
    }

    /// Receive-data-ready interrupt handler: queues the byte read from the
    /// data register, or drops it silently when the receive queue is full.
    pub fn isr_rx_ready(&mut self, byte: u8)
        requires
            old(self).wf(),
        ensures
            final(self).wf(),
            final(self).uart.state == old(self).uart.state,
            final(self).uart.tx@ == old(self).uart.tx@,
            old(self).uart.rx@.len() < QUEUE_CAPACITY ==> final(self).uart.rx@ == old(self).uart.rx@.push(byte),
            old(self).uart.rx@.len() >= QUEUE_CAPACITY ==> final(self).uart.rx@ == old(self).uart.rx@,
            final(self).timer == old(self).timer,
            final(self).led_index == old(self).led_index,
            final(self).palette == old(self).palette,
    {
        self.uart.on_rx_ready(byte);
    }

    /// Transmit-data-empty interrupt handler: pops the transmit queue and
    /// returns the byte the caller must write to the data register, or
    /// nothing when the queue is empty and the driver now waits for the
    /// line to drain.
    pub fn isr_tx_empty(&mut self) -> (r: Option<u8>)
        requires
            old(self).wf(),
        ensures
            final(self).wf(),
            final(self).uart.state == tx_empty_next_state(old(self).uart.tx@),
            final(self).uart.tx@ == drain_step(old(self).uart.tx@),
            final(self).uart.rx@ == old(self).uart.rx@,
            old(self).uart.tx@.len() > 0 ==> r == Some(old(self).uart.tx@[0]),
            old(self).uart.tx@.len() == 0 ==> r is None,
            final(self).timer == old(self).timer,
            final(self).led_index == old(self).led_index,
            final(self).palette == old(self).palette,
    {
        self.uart.on_tx_empty()
    }

    /// Transmission-complete interrupt handler: the last byte has left the
    /// wire; the driver returns to rest.
    pub fn isr_tx_complete(&mut self)
        requires
            old(self).wf(),
        ensures
            final(self).wf(),
            final(self).uart.state is ReceiveOnly,
            final(self).uart.tx@ == old(self).uart.tx@,
            final(self).uart.rx@ == old(self).uart.rx@,
            final(self).timer == old(self).timer,
            final(self).led_index == old(self).led_index,
            final(self).palette == old(self).palette,
    {
        self.uart.on_tx_complete();
    }

    /// Error interrupt handler: reports the raw error status and directs
    /// the caller to clear the latched error flags; driver state and
    /// queues are untouched.
    pub fn isr_error(&mut self, status: u8) -> (e: LinkErrorReport)
        requires
            old(self).wf(),
        ensures
            final(self).wf(),
            final(self).uart.state == old(self).uart.state,
            final(self).uart.tx@ == old(self).uart.tx@,
            final(self).uart.rx@ == old(self).uart.rx@,
            final(self).timer == old(self).timer,
            final(self).led_index == old(self).led_index,
            final(self).palette == old(self).palette,
            e.status == status,
            e.clear_error_flags,
    {
        self.uart.on_error(status)
    }

    /// Polls and clears the tick flag: `true` iff the timer overflowed
    /// since the previous poll. Ticks are coalesced, never queued.
    pub fn poll_tick(&mut self) -> (fired: bool)
        requires
            old(self).wf(),
        ensures
            final(self).wf(),
            fired == old(self).timer.is_set(),
            !final(self).timer.is_set(),
            final(self).uart == old(self).uart,
            final(self).led_index == old(self).led_index,
            final(self).palette == old(self).palette,
    {
        self.timer.poll_and_clear()
    }

    /// One main-loop pass after the tick fired, given the temperature just
    /// read from the sensor in ten-thousandths of a degree Celsius: sends
    /// the formatted reading (as much of it as the transmit queue holds)
    /// and starts the transmitter, drains the received bytes for the
    /// caller to report, and advances the LED animation, returning the
    /// pulse train of the color the LED now shows.
    pub fn on_tick(&mut self, temp_ten_thousandths: i32) -> (out: TickOutput)
        requires
            old(self).wf(),
        ensures
            final(self).wf(),
            final(self).uart.tx@ == old(self).uart.tx@ + pushed_prefix(
                old(self).uart.tx@,
                spec_temp_message(temp_ten_thousandths as int),
            ),
            final(self).uart.state is Transmitting,
            out.drained@ == old(self).uart.rx@,
            final(self).uart.rx@ == Seq::<u8>::empty(),
            out.frame@ == frame_pulses(old(self).palette@[old(self).led_index as int]),
            final(self).led_index == (old(self).led_index + 1) % old(self).palette@.len() as int,
            final(self).palette == old(self).palette,
            final(self).timer == old(self).timer,
    {
        let msg = format_temperature(temp_ten_thousandths);
        self.uart.send(msg.as_slice());
        let drained = self.uart.drain_rx();
        let color = self.palette[self.led_index];
        let frame = encode_frame(color);
        let len = self.palette.len();
        self.led_index = (self.led_index + 1) % len;
        TickOutput { drained, frame }
    }
}

} // verus!
