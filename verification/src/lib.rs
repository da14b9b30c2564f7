//! Driver engine for a pen-display tablet: decodes the device's interrupt
//! reports, tracks stylus state with change suppression, and dispatches
//! hardware buttons through configurable keymap schemas.
//!
//! The engine itself never touches a device: it turns raw report buffers
//! into lists of input events for the two virtual devices (digitizer and
//! keyboard), and its caller performs the USB reads and the event writes.

pub mod axes;
pub mod buttons;
pub mod config;
pub mod coords;
pub mod driver;
pub mod events;
pub mod handshake;
pub mod reload;
pub mod stylus;
