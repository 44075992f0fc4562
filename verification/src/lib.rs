//! Decision logic of a push-button controlled LED blinker.
//!
//! A button press, caught by an interrupt handler, shortens the blink period
//! of an LED; at the shortest period the next press starts over at the
//! longest. The handler and the main loop share one flag:
//!
//! - `delay`: the blink delay and how a press changes it;
//! - `flag`: the pending-press flag, as a plain value and in shared memory;
//! - `blinker`: the state of the main loop and what it does each turn;
//! - `message`: the diagnostic line for a new delay;
//! - `protocol`: handler and main loop together, step by step.
//!
//! Pins, timer and console stay with the firmware that uses this library.

pub mod blinker;
pub mod delay;
pub mod flag;
pub mod message;
pub mod protocol;
