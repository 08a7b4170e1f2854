//! The operations that move the sensor from one phase to the next, each as
//! a fixed list of waits and exchanges, and the machine that carries one out.
//!
//! The machine does no I/O. It says what has to be done next (wait, write a
//! frame, read a frame), is told what came of it, and says what is next: the
//! caller owns the serial line and the clock.
use crate::config::Config;
use crate::error::SDS011Error;
use crate::exchange::{
    send_message, spec_send_message, spec_written, written, Exchange, Findings, ReadResult,
};
use crate::message::{Kind, SEND_BUF_SIZE};
use vstd::prelude::*;

verus! {

/// What the caller is to do next on the driver's behalf.
#[derive(Debug, Clone, Copy, PartialEq, Eq)]
pub enum Action {
    /// Wait for so many milliseconds.
    Delay(u32),
    /// Write the whole of this frame to the serial line.
    Write([u8; SEND_BUF_SIZE]),
    /// Read exactly one reply frame from the serial line.
    Read,
}

/// An [`Action`] with the frame as a sequence of bytes.
pub enum ActionView {
    /// Wait for so many milliseconds.
    Delay(u32),
    /// Write the whole of this frame to the serial line.
    Write(Seq<u8>),
    /// Read exactly one reply frame from the serial line.
    Read,
}

impl View for Action {
    type V = ActionView;

    open spec fn view(&self) -> ActionView {
        match *self {
            Action::Delay(ms) => ActionView::Delay(ms),
            Action::Write(frame) => ActionView::Write(frame@),
            Action::Read => ActionView::Read,
        }
    }
}

/// What came of the action that the driver asked for.
#[derive(Debug, PartialEq, Eq)]
pub enum Event<E> {
    /// The time has passed.
    Delayed,
    /// The frame was written, or the serial interface failed.
    Written(Result<(), E>),
    /// A reply frame was read, or reading failed.
    Read(ReadResult<E>),
}

impl<E> Event<E> {
    /// Whether this is what can come of `action`.
    pub open spec fn answers(self, action: ActionView) -> bool {
        match action {
            ActionView::Delay(_) => self is Delayed,
            ActionView::Write(_) => self is Written,
            ActionView::Read => self is Read,
        }
    }
}

/// Where an operation stands after an event.
#[derive(Debug, PartialEq, Eq)]
pub enum Progress<P, T, E> {
    /// There is more to do: ask what remains for its next action.
    Pending(P),
    /// The operation is done, with this result.
    Done(T),
    /// The operation failed. Nothing more is asked of the caller.
    Failed(SDS011Error<E>),
}

/// One line of an operation.
#[derive(Debug, Clone, Copy, PartialEq, Eq)]
pub enum Command {
    /// Wait for the sensor to be ready: the configured sleep delay.
    Settle,
    /// Let the fan run before the measurement: the configured measure delay.
    SpinUp,
    /// Make an exchange with the sensor.
    Talk(Exchange),
}

/// The operations of the driver.
#[derive(Debug, Clone, Copy, PartialEq, Eq)]
pub enum Task {
    /// Put a fresh sensor into a known state: asleep, reporting when asked.
    Init,
    /// Take one measurement from a sleeping sensor.
    Measure,
    /// Hand the timing over to the sensor, with this working period in minutes.
    MakePeriodic(u8),
    /// Await the next measurement that the sensor sends on its own.
    Listen,
}

impl Task {
    /// The waits and exchanges of this operation, in the order in which
    /// they are made.
    pub open spec fn script(self) -> Seq<Command> {
        match self {
            Task::Init => seq![
                Command::Settle,
                Command::Talk(Exchange::Wake),
                Command::Talk(Exchange::SetRunmodeQuery),
                Command::Talk(Exchange::GetFirmware),
                Command::Talk(Exchange::Sleep),
            ],
            Task::Measure => seq![
                Command::Settle,
                Command::Talk(Exchange::Wake),
                Command::Talk(Exchange::ReadSensor(true)),
                Command::SpinUp,
                Command::Talk(Exchange::ReadSensor(true)),
                Command::Talk(Exchange::Sleep),
            ],
            Task::MakePeriodic(minutes) => seq![
                Command::Settle,
                Command::Talk(Exchange::Wake),
                Command::Talk(Exchange::SetPeriod(minutes)),
                Command::Talk(Exchange::SetRunmodeActive),
            ],
            Task::Listen => seq![Command::Talk(Exchange::ReadSensor(false))],
        }
    }

    /// Whether `findings` holds what every line of this operation brings.
    pub open spec fn complete(self, findings: Findings) -> bool {
        forall|i: int|
            0 <= i < self.script().len() ==> (#[trigger] self.script()[i]).kept_in(findings)
    }

    /// The line of this operation at `index`, if it has so many.
    pub fn command(&self, index: usize) -> (c: Option<Command>)
        ensures
            c == if index < self.script().len() {
                Some(self.script()[index as int])
            } else {
                None
            },
    {
        match self {
            Task::Init => match index {
                0 => Some(Command::Settle),
                1 => Some(Command::Talk(Exchange::Wake)),
                2 => Some(Command::Talk(Exchange::SetRunmodeQuery)),
                3 => Some(Command::Talk(Exchange::GetFirmware)),
                4 => Some(Command::Talk(Exchange::Sleep)),
                _ => None,
            },
            Task::Measure => match index {
                0 => Some(Command::Settle),
                1 => Some(Command::Talk(Exchange::Wake)),
                // the first reading after waking is stale: take it and drop it
                2 => Some(Command::Talk(Exchange::ReadSensor(true))),
                3 => Some(Command::SpinUp),
                4 => Some(Command::Talk(Exchange::ReadSensor(true))),
                5 => Some(Command::Talk(Exchange::Sleep)),
                _ => None,
            },
            Task::MakePeriodic(minutes) => match index {
                0 => Some(Command::Settle),
                1 => Some(Command::Talk(Exchange::Wake)),
                2 => Some(Command::Talk(Exchange::SetPeriod(*minutes))),
                3 => Some(Command::Talk(Exchange::SetRunmodeActive)),
                _ => None,
            },
            Task::Listen => match index {
                0 => Some(Command::Talk(Exchange::ReadSensor(false))),
                _ => None,
            },
        }
    }
}

impl Command {
    /// The message that opens this line, if it is an exchange that the
    /// driver opens.
    pub open spec fn spec_request(self) -> Option<Kind> {
        match self {
            Command::Talk(x) => x.spec_request(),
            _ => None,
        }
    }

    /// Whether `findings` holds what this line, once done, has brought: id
    /// and version after the firmware exchange, a measurement after a reading.
    pub open spec fn kept_in(self, findings: Findings) -> bool {
        match self {
            Command::Talk(Exchange::GetFirmware) => findings.id is Some && findings.firmware is Some,
            Command::Talk(Exchange::ReadSensor(_)) => findings.measurement is Some,
            _ => true,
        }
    }
}

/// An operation under way: which one, how far it has come, and what the
/// sensor has said so far.
pub struct RunState {
    /// The operation.
    pub task: Task,
    /// The delays to ask for.
    pub config: Config,
    /// The line of the operation's script that is being carried out.
    pub index: nat,
    /// Whether the query of the exchange at `index` has been written.
    pub sent: bool,
    /// What the sensor has said so far.
    pub findings: Findings,
}

impl RunState {
    /// The operation `task` before its first step.
    pub open spec fn start(task: Task, config: Config) -> RunState {
        RunState {
            task,
            config,
            index: 0,
            sent: false,
            findings: Findings { id: None, firmware: None, measurement: None },
        }
    }

    /// The line that is being carried out.
    pub open spec fn current(self) -> Command {
        self.task.script()[self.index as int]
    }

    /// Whether this is a state that a run can be in: it stands at a line of
    /// its script, has written a query only where the line has one, and
    /// holds what the lines before have brought.
    pub open spec fn wf(self) -> bool {
        &&& self.index < self.task.script().len()
        &&& self.sent ==> self.current().spec_request() is Some
        &&& forall|i: int|
            0 <= i < self.index ==> (#[trigger] self.task.script()[i]).kept_in(self.findings)
    }

    /// What the caller is to do next: wait out a delay, write the query of
    /// the current exchange if it has one that is not yet written, or else
    /// read the reply.
    pub open spec fn action(self) -> ActionView {
        match self.current() {
            Command::Settle => ActionView::Delay(self.config.sleep_delay),
            Command::SpinUp => ActionView::Delay(self.config.measure_delay),
            Command::Talk(x) => match x.spec_request() {
                Some(kind) => if self.sent {
                    ActionView::Read
                } else {
                    ActionView::Write(spec_send_message(kind))
                },
                None => ActionView::Read,
            },
        }
    }

    /// The run after the current line is done with `findings`: at the next
    /// line, or done if this was the last.
    pub open spec fn advance<E>(self, findings: Findings) -> Progress<RunState, Findings, E> {
        if self.index + 1 < self.task.script().len() {
            Progress::Pending(RunState { index: self.index + 1, sent: false, findings, ..self })
        } else {
            Progress::Done(findings)
        }
    }

    /// Where the run stands after `event`. An event that does not answer
    /// the action asked for changes nothing. A delay that has passed ends a
    /// wait. A written query leaves the reply to be read; a failed write
    /// fails the run. A reply that concludes the exchange ends the line; a
    /// failed read or any other reply fails the run.
    pub open spec fn resume<E>(self, event: Event<E>) -> Progress<RunState, Findings, E> {
        if !event.answers(self.action()) {
            Progress::Pending(self)
        } else {
            match (event, self.current()) {
                (Event::Written(outcome), _) => match spec_written(outcome) {
                    Ok(()) => Progress::Pending(RunState { sent: true, ..self }),
                    Err(e) => Progress::Failed(e),
                },
                (Event::Read(read), Command::Talk(x)) => match x.spec_conclude(
                    read,
                    self.findings,
                ) {
                    Ok(findings) => self.advance(findings),
                    Err(e) => Progress::Failed(e),
                },
                _ => self.advance(self.findings),
            }
        }
    }
}

impl RunState {
    /// Where the run stands after the events from position `at` on, taken
    /// in order. The first event that ends the run decides: what follows it
    /// is not looked at.
    pub open spec fn run_from<E>(self, events: Seq<Event<E>>, at: nat) -> Progress<
        RunState,
        Findings,
        E,
    >
        decreases events.len() - at,
    {
        if at >= events.len() {
            Progress::Pending(self)
        } else {
            match self.resume(events[at as int]) {
                Progress::Pending(next) => next.run_from(events, at + 1),
                ended => ended,
            }
        }
    }

    /// Where the run stands after `events`, taken in order.
    pub open spec fn run<E>(self, events: Seq<Event<E>>) -> Progress<RunState, Findings, E> {
        self.run_from(events, 0)
    }

    /// The actions that were asked for, one before each of the events from
    /// position `at` on that the run took in.
    pub open spec fn asked_from<E>(self, events: Seq<Event<E>>, at: nat) -> Seq<ActionView>
        decreases events.len() - at,
    {
        if at >= events.len() {
            Seq::empty()
        } else {
            seq![self.action()] + match self.resume(events[at as int]) {
                Progress::Pending(next) => next.asked_from(events, at + 1),
                _ => Seq::empty(),
            }
        }
    }

    /// The actions that were asked for, one before each of `events` that
    /// the run took in.
    pub open spec fn asked<E>(self, events: Seq<Event<E>>) -> Seq<ActionView> {
        self.asked_from(events, 0)
    }

    /// How many events the run takes at most until it ends: two for each
    /// line that is left, less the query that is already written.
    pub open spec fn steps_left(self) -> int {
        2 * (self.task.script().len() - self.index) - if self.sent {
            1int
        } else {
            0int
        }
    }
}

/// A run starts out in a state that it can be in.
pub proof fn lemma_start_is_wf(task: Task, config: Config)
    ensures
        RunState::start(task, config).wf(),
{
}

/// Every step leaves the run in a state that it can be in, on the same
/// operation and with the same delays.
pub proof fn lemma_resume_keeps_wf<E>(state: RunState, event: Event<E>)
    requires
        state.wf(),
    ensures
        state.resume(event) matches Progress::Pending(next) ==> next.wf() && next.task
            == state.task && next.config == state.config,
{
}

/// Every event that answers the action asked for brings the run nearer to
/// its end: no wait and no exchange is made twice.
pub proof fn lemma_resume_makes_progress<E>(state: RunState, event: Event<E>)
    requires
        state.wf(),
        event.answers(state.action()),
    ensures
        state.steps_left() > 0,
        state.resume(event) matches Progress::Pending(next) ==> next.steps_left()
            < state.steps_left(),
{
}

/// A run that is done holds what every line of its operation brought.
pub proof fn lemma_done_is_complete<E>(state: RunState, event: Event<E>)
    requires
        state.wf(),
    ensures
        state.resume(event) matches Progress::Done(findings) ==> state.task.complete(findings),
{
}

/// A run ends in an error only where the serial line failed or the reply
/// did not conclude the exchange, and an error of the serial line is
/// handed on as it came.
pub proof fn lemma_failures<E>(state: RunState, event: Event<E>)
    requires
        state.wf(),
    ensures
        state.resume(event) matches Progress::Failed(e) ==> match event {
            Event::Delayed => false,
            Event::Written(outcome) => outcome matches Err(cause) && e == SDS011Error::WriteError(
                cause,
            ),
            Event::Read(read) => state.current() matches Command::Talk(x) && x.spec_conclude(
                read,
                state.findings,
            ) == Err::<Findings, SDS011Error<E>>(e),
        },
{
}

/// An operation under way: the state behind the operations that the driver
/// hands out.
pub(crate) struct Run {
    task: Task,
    config: Config,
    index: usize,
    sent: bool,
    findings: Findings,
}

impl View for Run {
    type V = RunState;

    closed spec fn view(&self) -> RunState {
        RunState {
            task: self.task,
            config: self.config,
            index: self.index as nat,
            sent: self.sent,
            findings: self.findings,
        }
    }
}

impl Run {
    #[verifier::type_invariant]
    spec fn inv(self) -> bool {
        self@.wf()
    }

    /// Begins the operation `task`. Nothing has been asked of the caller yet.
    pub(crate) fn start(task: Task, config: Config) -> (run: Run)
        ensures
            run@ == RunState::start(task, config),
    {
        Run {
            task,
            config,
            index: 0,
            sent: false,
            findings: Findings { id: None, firmware: None, measurement: None },
        }
    }

    /// The delays that this run asks for.
    pub fn config(&self) -> (config: Config)
        ensures
            config == self@.config,
    {
        self.config
    }

    /// What the caller is to do next.
    pub fn action(&self) -> (action: Action)
        ensures
            action@ == self@.action(),
    {
        proof {
            use_type_invariant(self);
        }
        match self.task.command(self.index) {
            Some(Command::Settle) => Action::Delay(self.config.sleep_delay),
            Some(Command::SpinUp) => Action::Delay(self.config.measure_delay),
            Some(Command::Talk(exchange)) => match exchange.request() {
                Some(kind) => if self.sent {
                    Action::Read
                } else {
                    Action::Write(send_message(kind))
                },
                None => Action::Read,
            },
            None => Action::Read,
        }
    }

    /// The run after the current line is done with `findings`.
    fn advance<E>(self, findings: Findings) -> (r: Progress<Run, Findings, E>)
        requires
            self@.current().kept_in(findings),
            forall|i: int|
                0 <= i < self@.index ==> (#[trigger] self@.task.script()[i]).kept_in(findings),
        ensures
            r matches Progress::Done(f) ==> self@.task.complete(f),
            match r {
                Progress::Pending(next) => self@.advance::<E>(findings) == Progress::<
                    RunState,
                    Findings,
                    E,
                >::Pending(next@),
                Progress::Done(f) => self@.advance::<E>(findings) == Progress::<
                    RunState,
                    Findings,
                    E,
                >::Done(f),
                Progress::Failed(_) => false,
            },
    {
        proof {
            use_type_invariant(&self);
        }
        match self.task.command(self.index + 1) {
            Some(_) => Progress::Pending(
                Run { index: self.index + 1, sent: false, findings, ..self },
            ),
            None => Progress::Done(findings),
        }
    }

    /// Takes in what came of the action asked for, and says where the run
    /// stands now.
    pub fn resume<E>(self, event: Event<E>) -> (r: Progress<Run, Findings, E>)
        ensures
            r matches Progress::Done(f) ==> self@.task.complete(f),
            match r {
                Progress::Pending(next) => self@.resume(event) == Progress::<
                    RunState,
                    Findings,
                    E,
                >::Pending(next@),
                Progress::Done(f) => self@.resume(event) == Progress::<RunState, Findings, E>::Done(
                    f,
                ),
                Progress::Failed(e) => self@.resume(event) == Progress::<
                    RunState,
                    Findings,
                    E,
                >::Failed(e),
            },
    {
        proof {
            use_type_invariant(&self);
        }
        let command = self.task.command(self.index);
        let known = self.findings;
        match (event, command) {
            (Event::Delayed, Some(Command::Settle)) => self.advance(known),
            (Event::Delayed, Some(Command::SpinUp)) => self.advance(known),
            (Event::Written(outcome), Some(Command::Talk(exchange))) => {
                if self.sent || exchange.request().is_none() {
                    Progress::Pending(self)
                } else {
                    match written(outcome) {
                        Ok(()) => Progress::Pending(Run { sent: true, ..self }),
                        Err(e) => Progress::Failed(e),
                    }
                }
            },
            (Event::Read(read), Some(Command::Talk(exchange))) => {
                if !self.sent && exchange.request().is_some() {
                    Progress::Pending(self)
                } else {
                    match exchange.conclude(read, known) {
                        Ok(findings) => self.advance(findings),
                        Err(e) => Progress::Failed(e),
                    }
                }
            },
            _ => Progress::Pending(self),
        }
    }
}

} // verus!
