//! Driver logic for the SDS011 particle sensor: the codec of its serial
//! protocol and the sequences of exchanges that move the sensor between its
//! operating phases, both verified.
//!
//! # Technical Overview
//! The sensor has two operating modes:
//! * "query mode": The sensor does nothing until it is actively instructed to
//!   perform a measurement (we call this polling).
//! * "active mode": The sensor continuously produces data in a configurable
//!   interval (we call this periodic).
//!
//! We abstract this into the following interface:
//! * A sensor created using `new()` is in `Uninitialized` state.
//! * You call `init()`. Once that operation is done, it yields a sensor in
//!   `Polling` state: the sensor has been switched to query mode and sent
//!   to sleep (fan off).
//! * The sensor can now be queried via `measure()`.
//!   This wakes the sensor, spins the fan for a configurable duration
//!   (which is necessary to get a correct measurement), reads the sensor and
//!   puts it back to sleep.
//! * Optionally (not recommended!), the sensor can be put into `Periodic` state
//!   by calling `make_periodic()` on a sensor in `Polling` state.
//!   This puts the sensor in charge of sleeping and waking up.
//!
//! # Carrying out an operation
//! This crate performs no I/O. `init()`, `measure()` and `make_periodic()`
//! begin an [`Operation`](driver::Operation), which the caller carries out
//! on its serial line: ask the operation for its next
//! [`Action`](task::Action), wait or write or read as it says, and hand the
//! outcome back as an [`Event`](task::Event), until the operation is done or
//! has failed.
//!
//! # Limitations
//! Commands are not sent to a specific sensor id: every query is addressed
//! to all sensors on the line.
//! Putting sensors into periodic mode can have the side effect of missing
//! frame boundaries. This is not recovered from: the measurement fails with
//! an error.
pub mod config;
pub mod driver;
pub mod error;
pub mod exchange;
pub mod message;
pub mod operations;
pub mod roundtrip;
pub mod sensor_state;
pub mod task;

pub use config::Config;
pub use driver::SDS011;
pub use error::SDS011Error;
pub use message::{FirmwareVersion, Measurement};
pub use sensor_state::SensorState;
