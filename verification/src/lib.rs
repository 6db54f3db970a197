//! Interrupt-driven I/O core for a small single-chip microcontroller.
//!
//! The crate models and verifies the parts of the firmware where two
//! execution contexts (interrupt handlers and the cooperative main loop)
//! meet over shared state, and where correctness depends on exact ordering:
//!
//! * a fixed-capacity single-producer/single-consumer byte queue,
//! * a coalescing one-shot timer-tick flag,
//! * the UART driver with its transmit enable/disable state machine,
//! * a one-wire RGB LED bit encoder with named timing constants,
//! * decimal formatting of temperature readings for the serial link,
//! * the main-loop step that ties the components together.
//!
//! Register access, interrupt vectoring and the busy-wait GPIO pulses are
//! the platform's side of the boundary: callers read the hardware, hand
//! plain values in, and perform the effects these functions return.

pub mod queue;
pub mod timer;
pub mod uart;
pub mod led;
pub mod text;
pub mod firmware;
