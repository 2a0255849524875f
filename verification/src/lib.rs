//! Device-presence and connection-establishment core for Bluetooth Classic
//! headset peripherals.
//!
//! The crate has three parts:
//!
//! - [`address`]: Bluetooth hardware addresses, parsed from and rendered to
//!   the canonical `AA:BB:CC:DD:EE:FF` form, with a verified round trip.
//! - [`observer`]: the decision logic of the device observer: classifying
//!   adapter events, the shared check-and-notify rule, and the startup sweep
//!   over already-connected devices.
//! - [`establish`]: the connection establisher, modelled as a step function
//!   from establishment state and outside outcome to the next state and the
//!   action the driver must perform.
//!
//! All I/O (the adapter session, the event stream, the RFCOMM socket) is
//! performed by a thin unverified driver around this crate; the driver hands
//! plain values in and carries the decided actions out.

pub mod address;
pub mod establish;
pub mod observer;
