//! Driver core for HD44780 character displays behind a PCF8574 I/O expander.
//!
//! The driver performs no I/O. Each operation queues the exact expander
//! writes and settle delays the controller needs; the host takes them one at
//! a time with [`Lcd::advance`], performs each on its bus and reports how it
//! went with the next call.

pub mod bus;
pub mod command;
pub mod consts;
pub mod laws;
pub mod lcd;
pub mod plan;

pub use bus::{frame, BusAction, BusOutcome, Step};
pub use lcd::{Lcd, LcdError, LcdView};
