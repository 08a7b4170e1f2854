//! The phases of a sensor's life, as types.
//!
//! A sensor starts out [`Uninitialized`]. Initialising it leaves it
//! [`Polling`]: asleep, and measuring when asked. From there it can be made
//! [`Periodic`]: measuring on its own schedule. Nothing leads back.
use vstd::prelude::*;

mod private;

verus! {

/// Encodes state for the [SDS011](crate::SDS011) struct.
///
/// This trait is sealed to prevent external implementations.
pub trait SensorState: private::Sealed {
    /// Whether a sensor in this phase has been initialised, so that its id
    /// and its firmware version are known.
    spec fn initialized() -> bool;
}

/// Sensor reports periodically
pub struct Periodic;

impl private::Sealed for Periodic {

}

impl SensorState for Periodic {
    open spec fn initialized() -> bool {
        true
    }
}

/// Sensor sleeps until polled
pub struct Polling;

impl private::Sealed for Polling {

}

impl SensorState for Polling {
    open spec fn initialized() -> bool {
        true
    }
}

/// Sensor not yet initialized
pub struct Uninitialized;

impl private::Sealed for Uninitialized {

}

impl SensorState for Uninitialized {
    open spec fn initialized() -> bool {
        false
    }
}

} // verus!
