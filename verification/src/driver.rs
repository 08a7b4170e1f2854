//! The sensor in its phases, and the operations that lead from one phase to
//! the next.
//!
//! An [`Operation`] is begun on a sensor in the right phase and then
//! carried out step by step: ask it for its next [`Action`], perform that on
//! the serial line or the clock, and hand back what came of it. The last
//! step yields the operation's result; a failed step yields the error, and
//! the operation is over.
use crate::config::Config;
use crate::error::SDS011Error;
use crate::exchange::Findings;
use crate::message::{FirmwareVersion, Measurement, MAX_PERIOD};
use crate::sensor_state::{Periodic, Polling, SensorState, Uninitialized};
use crate::task::{Action, Event, Progress, Run, RunState, Task};
use core::marker::PhantomData;
use vstd::prelude::*;

verus! {

/// What a driver holds about its sensor.
pub struct SensorView {
    /// The delays that the driver asks for.
    pub config: Config,
    /// The sensor's id, once it has been learned.
    pub sensor_id: Option<u16>,
    /// The sensor's firmware version, once it has been learned.
    pub firmware: Option<FirmwareVersion>,
}

/// The main struct: a sensor in the phase `S`.
///
/// Calling `new()` will give you an uninitialized struct.
/// You need to call `init()` on it to get a sensor that can be polled.
pub struct SDS011<S: SensorState> {
    config: Config,
    sensor_id: Option<u16>,
    firmware: Option<FirmwareVersion>,
    _state: PhantomData<S>,
}

impl<S: SensorState> View for SDS011<S> {
    type V = SensorView;

    closed spec fn view(&self) -> SensorView {
        SensorView { config: self.config, sensor_id: self.sensor_id, firmware: self.firmware }
    }
}

impl<S: SensorState> SDS011<S> {
    #[verifier::type_invariant]
    spec fn inv(self) -> bool {
        S::initialized() ==> self.sensor_id is Some && self.firmware is Some
    }
}

/// An operation of the driver, under way.
pub trait Operation: Sized {
    /// What the operation yields when it is done.
    type Output;

    /// How far the operation has come.
    spec fn run(&self) -> RunState;

    /// Whether `output` is what this operation yields when it is done with
    /// `findings`.
    spec fn yields(&self, findings: Findings, output: Self::Output) -> bool;

    /// What the caller is to do next.
    fn action(&self) -> (action: Action)
        ensures
            action@ == self.run().action(),
    ;

    /// Takes in what came of the action asked for, and says where the
    /// operation stands now: more is to do, it is done, or it has failed.
    fn resume<E>(self, event: Event<E>) -> (r: Progress<Self, Self::Output, E>)
        ensures
            match r {
                Progress::Pending(next) => self.run().resume(event) == Progress::<
                    RunState,
                    Findings,
                    E,
                >::Pending(next.run()),
                Progress::Done(output) => self.run().resume::<E>(event) matches Progress::Done(f)
                    && self.yields(f, output),
                Progress::Failed(e) => self.run().resume(event) == Progress::<
                    RunState,
                    Findings,
                    E,
                >::Failed(e),
            },
    ;
}

/// The initialisation of a sensor, under way.
pub struct Initializing {
    run: Run,
}

impl Initializing {
    #[verifier::type_invariant]
    spec fn inv(self) -> bool {
        self.run@.task == Task::Init
    }
}

impl Operation for Initializing {
    /// The sensor in the polling phase.
    type Output = SDS011<Polling>;

    closed spec fn run(&self) -> RunState {
        self.run@
    }

    /// The sensor is handed back with the delays it had and with the id
    /// and the firmware version that it reported.
    open spec fn yields(&self, findings: Findings, output: SDS011<Polling>) -> bool {
        &&& findings.id is Some
        &&& findings.firmware is Some
        &&& output@ == (SensorView {
            config: self.run().config,
            sensor_id: findings.id,
            firmware: findings.firmware,
        })
    }

    fn action(&self) -> (action: Action) {
        self.run.action()
    }

    fn resume<E>(self, event: Event<E>) -> (r: Progress<Initializing, SDS011<Polling>, E>) {
        proof {
            use_type_invariant(&self);
        }
        let config = self.run.config();
        match self.run.resume(event) {
            Progress::Pending(run) => Progress::Pending(Initializing { run }),
            Progress::Done(findings) => {
                assert(Task::Init.script()[3].kept_in(findings));
                Progress::Done(
                    SDS011::<Polling> {
                        config,
                        sensor_id: findings.id,
                        firmware: findings.firmware,
                        _state: PhantomData,
                    },
                )
            },
            Progress::Failed(e) => Progress::Failed(e),
        }
    }
}

impl SDS011<Uninitialized> {
    /// Create a new sensor instance.
    /// The returned instance needs to be initialized before use.
    pub fn new(config: Config) -> (sensor: Self)
        ensures
            sensor@ == (SensorView { config, sensor_id: None, firmware: None }),
    {
        SDS011::<Uninitialized> { config, sensor_id: None, firmware: None, _state: PhantomData }
    }

    /// Begins to put the sensor in a well-defined state (sleeping in polling
    /// mode): wait for the sensor to be ready, wake it, have it report only
    /// when asked, read its firmware version, send it to sleep.
    pub fn init(self) -> (run: Initializing)
        ensures
            run.run() == RunState::start(Task::Init, self@.config),
    {
        Initializing { run: Run::start(Task::Init, self.config) }
    }
}

/// A measurement, under way.
pub struct Measuring {
    run: Run,
}

impl Measuring {
    #[verifier::type_invariant]
    spec fn inv(self) -> bool {
        self.run@.task == Task::Measure || self.run@.task == Task::Listen
    }
}

impl Operation for Measuring {
    /// The measurement.
    type Output = Measurement;

    closed spec fn run(&self) -> RunState {
        self.run@
    }

    /// The measurement is the latest that the sensor reported.
    open spec fn yields(&self, findings: Findings, output: Measurement) -> bool {
        findings.measurement == Some(output)
    }

    fn action(&self) -> (action: Action) {
        self.run.action()
    }

    fn resume<E>(self, event: Event<E>) -> (r: Progress<Measuring, Measurement, E>) {
        proof {
            use_type_invariant(&self);
        }
        match self.run.resume(event) {
            Progress::Pending(run) => Progress::Pending(Measuring { run }),
            Progress::Done(findings) => {
                assert(Task::Measure.script()[4].kept_in(findings) || Task::Listen.script()[0].kept_in(
                    findings,
                ));
                Progress::Done(findings.measurement.unwrap())
            },
            Progress::Failed(e) => Progress::Failed(e),
        }
    }
}

/// The change to periodic measurement, under way.
pub struct MakingPeriodic {
    run: Run,
    sensor_id: u16,
    firmware: FirmwareVersion,
}

impl MakingPeriodic {
    #[verifier::type_invariant]
    spec fn inv(self) -> bool {
        self.run@.task is MakePeriodic
    }

    /// What is known of the sensor that is being changed.
    pub closed spec fn sensor(&self) -> SensorView {
        SensorView {
            config: self.run@.config,
            sensor_id: Some(self.sensor_id),
            firmware: Some(self.firmware),
        }
    }
}

impl Operation for MakingPeriodic {
    /// The sensor in the periodic phase.
    type Output = SDS011<Periodic>;

    closed spec fn run(&self) -> RunState {
        self.run@
    }

    /// The sensor is handed back with the delays, the id and the firmware
    /// version that it had.
    open spec fn yields(&self, findings: Findings, output: SDS011<Periodic>) -> bool {
        output@ == self.sensor()
    }

    fn action(&self) -> (action: Action) {
        self.run.action()
    }

    fn resume<E>(self, event: Event<E>) -> (r: Progress<MakingPeriodic, SDS011<Periodic>, E>)
        ensures
            r matches Progress::Pending(next) ==> next.sensor() == self.sensor(),
    {
        proof {
            use_type_invariant(&self);
        }
        let config = self.run.config();
        let sensor_id = self.sensor_id;
        let firmware = self.firmware;
        match self.run.resume(event) {
            Progress::Pending(run) => Progress::Pending(MakingPeriodic { run, sensor_id, firmware }),
            Progress::Done(_) => Progress::Done(
                SDS011::<Periodic> {
                    config,
                    sensor_id: Some(sensor_id),
                    firmware: Some(firmware),
                    _state: PhantomData,
                },
            ),
            Progress::Failed(e) => Progress::Failed(e),
        }
    }
}

impl SDS011<Periodic> {
    /// In this state, the sensor will wake up periodically (as configured),
    /// wait 30 seconds, send a measurement over serial, and go back to sleep.
    /// This begins to wait for the next measurement: its one step is to read
    /// a reply, which must be a measurement.
    pub fn measure(&self) -> (run: Measuring)
        ensures
            run.run() == RunState::start(Task::Listen, self@.config),
    {
        Measuring { run: Run::start(Task::Listen, self.config) }
    }

    /// Get the sensor's ID.
    pub fn id(&self) -> (id: u16)
        ensures
            self@.sensor_id == Some(id),
    {
        proof {
            use_type_invariant(self);
        }
        self.sensor_id.unwrap()
    }

    /// Get the sensor's firmware version.
    pub fn version(&self) -> (version: FirmwareVersion)
        ensures
            self@.firmware == Some(version),
    {
        proof {
            use_type_invariant(self);
        }
        self.firmware.unwrap()
    }
}

impl SDS011<Polling> {
    /// In this state, measurements are triggered by calling this function.
    /// This begins one: wait for the sensor to be ready, wake it, take and
    /// drop the stale reading that it holds, let the fan run for the
    /// configured time, take the measurement, send the sensor back to sleep.
    /// A step that fails ends the measurement there: the sensor is then not
    /// sent to sleep.
    pub fn measure(&self) -> (run: Measuring)
        ensures
            run.run() == RunState::start(Task::Measure, self@.config),
    {
        Measuring { run: Run::start(Task::Measure, self.config) }
    }

    /// Begins to set the sensor into periodic measurement mode, in which it
    /// performs a measurement every 0-30 `minutes`: wait for the sensor to
    /// be ready, wake it, set the working period, have it report on its own.
    /// If > 0, the sensor will go to sleep between measurements.
    ///
    /// # Errors
    /// More than 30 minutes are refused as invalid, before anything is
    /// asked of the caller.
    pub fn make_periodic<E>(self, minutes: u8) -> (r: Result<MakingPeriodic, SDS011Error<E>>)
        ensures
            minutes > MAX_PERIOD ==> r == Err::<MakingPeriodic, SDS011Error<E>>(
                SDS011Error::Invalid,
            ),
            minutes <= MAX_PERIOD ==> r is Ok,
            r matches Ok(run) ==> run.run() == RunState::start(
                Task::MakePeriodic(minutes),
                self@.config,
            ) && run.sensor() == self@,
    {
        if minutes > MAX_PERIOD {
            return Err(SDS011Error::Invalid);
        }
        proof {
            use_type_invariant(&self);
        }
        Ok(
            MakingPeriodic {
                run: Run::start(Task::MakePeriodic(minutes), self.config),
                sensor_id: self.sensor_id.unwrap(),
                firmware: self.firmware.unwrap(),
            },
        )
    }

    /// Get the sensor's ID.
    pub fn id(&self) -> (id: u16)
        ensures
            self@.sensor_id == Some(id),
    {
        proof {
            use_type_invariant(self);
        }
        self.sensor_id.unwrap()
    }

    /// Get the sensor's firmware version.
    pub fn version(&self) -> (version: FirmwareVersion)
        ensures
            self@.firmware == Some(version),
    {
        proof {
            use_type_invariant(self);
        }
        self.firmware.unwrap()
    }
}

} // verus!
