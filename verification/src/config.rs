//! The delays that the driver asks for between the steps of an operation.
use vstd::prelude::*;

verus! {

/// Milliseconds to wait before the sensor is woken, unless configured otherwise.
pub const DEFAULT_SLEEP_DELAY: u32 = 500;

/// Milliseconds that the fan runs before a measurement, unless configured otherwise.
pub const DEFAULT_MEASURE_DELAY: u32 = 30_000;

/// Sensor configuration, specifically delay times.
///
/// Delays are necessary between waking up the sensor
/// and reading its value to stabilize the measurement.
#[derive(Debug, Clone, Copy, PartialEq, Eq)]
pub struct Config {
    /// Milliseconds to wait before the sensor is woken.
    pub sleep_delay: u32,
    /// Milliseconds between waking the sensor and reading the measurement.
    pub measure_delay: u32,
}

impl Default for Config {
    fn default() -> (config: Self)
        ensures
            config == (Config {
                sleep_delay: DEFAULT_SLEEP_DELAY,
                measure_delay: DEFAULT_MEASURE_DELAY,
            }),
    {
        Self { sleep_delay: DEFAULT_SLEEP_DELAY, measure_delay: DEFAULT_MEASURE_DELAY }
    }
}

impl Config {
    /// Configure the time between waking the sensor (spinning up the fan)
    /// and reading the measurement, in milliseconds.
    /// The sensor manual recommends 30 seconds, which is the default.
    #[must_use]
    pub fn set_measure_delay(self, measure_delay: u32) -> (config: Self)
        ensures
            config == (Config { measure_delay, ..self }),
    {
        Config { measure_delay, ..self }
    }

    /// How many milliseconds to wait before waking the sensor; defaults to 500.
    /// Setting this too low can result in the sensor not coming up (boot time?)
    #[must_use]
    pub fn set_sleep_delay(self, sleep_delay: u32) -> (config: Self)
        ensures
            config == (Config { sleep_delay, ..self }),
    {
        Config { sleep_delay, ..self }
    }
}

} // verus!
