//! Register-level driver for the RV-3028-C7 extreme-low-power real-time
//! clock, accessed over a two-wire serial bus.
//!
//! The driver translates high-level time, alarm, countdown-timer and
//! event-log operations into sequences of byte-oriented register reads and
//! writes.  Every operation is specified and verified against an idealized
//! model of the bus: a register file per device address, plus the
//! non-volatile configuration memory behind the EEPROM command registers.

pub mod bcd;
pub mod bus;
pub mod datetime;
pub mod driver;
pub mod pct;
pub mod regs;

pub use bus::I2cBus;
pub use datetime::DateTime;
pub use driver::{ClockoutRate, TrickleChargeCurrentLimiter, RV3028};
pub use pct::{Duration, TimerClockFreq};
pub use regs::{TS_EVENT_SOURCE_BSF, TS_EVENT_SOURCE_EVI};
