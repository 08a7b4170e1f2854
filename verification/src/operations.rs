//! The operations from their first step to their last: what is asked of the
//! caller, in which order, and what comes out, for every way the sensor may
//! answer.
use crate::config::Config;
use crate::error::{ReadExactError, SDS011Error};
use crate::exchange::{
    spec_get_firmware, spec_read_sensor, spec_send_message, Exchange, Findings, ReadResult,
};
use crate::message::{Message, RECV_BUF_SIZE};
use crate::task::{ActionView, Event, Progress, RunState, Task};
use vstd::prelude::*;

verus! {

/// What is known before the sensor has said anything.
pub open spec fn nothing() -> Findings {
    Findings { id: None, firmware: None, measurement: None }
}

/// What is known after one more exchange, where those before it went well;
/// the first failure stays.
pub open spec fn then<E>(
    before: Result<Findings, SDS011Error<E>>,
    exchange: Exchange,
    read: ReadResult<E>,
) -> Result<Findings, SDS011Error<E>> {
    match before {
        Ok(known) => exchange.spec_conclude(read, known),
        Err(e) => Err(e),
    }
}

/// How a run ends whose exchanges came out as `outcome`.
pub open spec fn ended<E>(outcome: Result<Findings, SDS011Error<E>>) -> Progress<
    RunState,
    Findings,
    E,
> {
    match outcome {
        Ok(findings) => Progress::Done(findings),
        Err(e) => Progress::Failed(e),
    }
}

/// The query frame that opens `exchange`.
pub open spec fn query_of(exchange: Exchange) -> ActionView {
    ActionView::Write(spec_send_message(exchange.spec_request()->0))
}

/// The events of an initialisation in which every write goes well and the
/// four reads come out as given.
pub open spec fn init_events<E>(
    wake: ReadResult<E>,
    mode: ReadResult<E>,
    firmware: ReadResult<E>,
    sleep: ReadResult<E>,
) -> Seq<Event<E>> {
    seq![
        Event::Delayed,
        Event::Written(Ok(())),
        Event::Read(wake),
        Event::Written(Ok(())),
        Event::Read(mode),
        Event::Written(Ok(())),
        Event::Read(firmware),
        Event::Written(Ok(())),
        Event::Read(sleep),
    ]
}

/// What an initialisation comes to: the sensor must confirm that it woke,
/// confirm that it reports only when asked, report its firmware version and
/// confirm that it went to sleep, in this order.
pub open spec fn init_outcome<E>(
    wake: ReadResult<E>,
    mode: ReadResult<E>,
    firmware: ReadResult<E>,
    sleep: ReadResult<E>,
) -> Result<Findings, SDS011Error<E>> {
    then(
        then(
            then(Exchange::Wake.spec_conclude(wake, nothing()), Exchange::SetRunmodeQuery, mode),
            Exchange::GetFirmware,
            firmware,
        ),
        Exchange::Sleep,
        sleep,
    )
}

/// An initialisation goes through its four exchanges in order and ends
/// with the first that fails, or else is done with what the firmware reply
/// said.
pub proof fn lemma_init<E>(
    config: Config,
    wake: ReadResult<E>,
    mode: ReadResult<E>,
    firmware: ReadResult<E>,
    sleep: ReadResult<E>,
)
    ensures
        RunState::start(Task::Init, config).run(init_events(wake, mode, firmware, sleep)) == ended(
            init_outcome(wake, mode, firmware, sleep),
        ),
{
    reveal_with_fuel(RunState::run_from, 10);
}

/// An initialisation that comes as far as its last exchange asks for nine
/// actions: the wait, and for each of wake, query mode, firmware and sleep
/// the query and the read of its reply.
pub proof fn lemma_init_actions<E>(
    config: Config,
    wake: ReadResult<E>,
    mode: ReadResult<E>,
    firmware: ReadResult<E>,
    sleep: ReadResult<E>,
)
    requires
        then::<E>(
            then(Exchange::Wake.spec_conclude(wake, nothing()), Exchange::SetRunmodeQuery, mode),
            Exchange::GetFirmware,
            firmware,
        ) is Ok,
    ensures
        RunState::start(Task::Init, config).asked(init_events(wake, mode, firmware, sleep)) == seq![
            ActionView::Delay(config.sleep_delay),
            query_of(Exchange::Wake),
            ActionView::Read,
            query_of(Exchange::SetRunmodeQuery),
            ActionView::Read,
            query_of(Exchange::GetFirmware),
            ActionView::Read,
            query_of(Exchange::Sleep),
            ActionView::Read,
        ],
{
    reveal_with_fuel(RunState::asked_from, 10);
    assert(RunState::start(Task::Init, config).asked(init_events(wake, mode, firmware, sleep))
        =~= seq![
        ActionView::Delay(config.sleep_delay),
        query_of(Exchange::Wake),
        ActionView::Read,
        query_of(Exchange::SetRunmodeQuery),
        ActionView::Read,
        query_of(Exchange::GetFirmware),
        ActionView::Read,
        query_of(Exchange::Sleep),
        ActionView::Read,
    ]);
}

/// An initialisation that is done has learned the sensor's id and its
/// firmware version from the firmware reply, and nothing else.
pub proof fn lemma_init_findings<E>(
    wake: ReadResult<E>,
    mode: ReadResult<E>,
    firmware: ReadResult<E>,
    sleep: ReadResult<E>,
)
    ensures
        init_outcome(wake, mode, firmware, sleep) matches Ok(findings) ==> {
            &&& Exchange::Wake.spec_conclude(wake, nothing()) is Ok
            &&& Exchange::SetRunmodeQuery.spec_conclude(mode, nothing()) is Ok
            &&& spec_get_firmware(firmware) matches Ok(found) && findings
                == (Findings { id: Some(found.0), firmware: Some(found.1), measurement: None })
            &&& Exchange::Sleep.spec_conclude(sleep, nothing()) is Ok
        },
{
}

/// A reply that decodes and still does not conclude its exchange is of an
/// unexpected type, or reports that the command failed.
pub proof fn lemma_wrong_reply<E>(exchange: Exchange, reply: [u8; RECV_BUF_SIZE], known: Findings)
    requires
        Message::spec_parse_reply(reply@) is Ok,
    ensures
        exchange.spec_conclude(Ok::<[u8; RECV_BUF_SIZE], ReadExactError<E>>(reply), known)
            matches Err(e) ==> e == SDS011Error::<E>::UnexpectedType || e
            == SDS011Error::<E>::OperationFailed,
{
}

/// Once a run has ended, no further event changes how it ended.
pub proof fn lemma_ended_run_stays_ended<E>(
    state: RunState,
    events: Seq<Event<E>>,
    more: Seq<Event<E>>,
)
    ensures
        !(state.run(events) is Pending) ==> state.run(events + more) == state.run(events),
{
    lemma_ended_from(state, events, more, 0);
}

/// Once a run has ended, no further event changes how it ended, counted
/// from any position.
proof fn lemma_ended_from<E>(state: RunState, events: Seq<Event<E>>, more: Seq<Event<E>>, at: nat)
    ensures
        !(state.run_from(events, at) is Pending) ==> state.run_from(events + more, at)
            == state.run_from(events, at),
    decreases events.len() - at,
{
    if at < events.len() {
        assert((events + more)[at as int] == events[at as int]);
        match state.resume(events[at as int]) {
            Progress::Pending(next) => {
                lemma_ended_from(next, events, more, at + 1);
            },
            _ => {},
        }
    }
}

/// The events of a measurement in which every write goes well and the
/// four reads come out as given.
pub open spec fn measure_events<E>(
    wake: ReadResult<E>,
    stale: ReadResult<E>,
    fresh: ReadResult<E>,
    sleep: ReadResult<E>,
) -> Seq<Event<E>> {
    seq![
        Event::Delayed,
        Event::Written(Ok(())),
        Event::Read(wake),
        Event::Written(Ok(())),
        Event::Read(stale),
        Event::Delayed,
        Event::Written(Ok(())),
        Event::Read(fresh),
        Event::Written(Ok(())),
        Event::Read(sleep),
    ]
}

/// What a measurement comes to: the sensor must confirm that it woke,
/// report a first measurement, report a second one after the fan has run,
/// and confirm that it went to sleep, in this order.
pub open spec fn measure_outcome<E>(
    wake: ReadResult<E>,
    stale: ReadResult<E>,
    fresh: ReadResult<E>,
    sleep: ReadResult<E>,
) -> Result<Findings, SDS011Error<E>> {
    then(
        then(
            then(Exchange::Wake.spec_conclude(wake, nothing()), Exchange::ReadSensor(true), stale),
            Exchange::ReadSensor(true),
            fresh,
        ),
        Exchange::Sleep,
        sleep,
    )
}

/// A measurement goes through its four exchanges in order and ends with
/// the first that fails, or else is done with the second measurement.
pub proof fn lemma_measure<E>(
    config: Config,
    wake: ReadResult<E>,
    stale: ReadResult<E>,
    fresh: ReadResult<E>,
    sleep: ReadResult<E>,
)
    ensures
        RunState::start(Task::Measure, config).run(measure_events(wake, stale, fresh, sleep))
            == ended(measure_outcome(wake, stale, fresh, sleep)),
        measure_outcome(wake, stale, fresh, sleep) matches Ok(findings) ==> findings.measurement
            == Some(spec_read_sensor(fresh)->Ok_0),
{
    reveal_with_fuel(RunState::run_from, 11);
}

/// A measurement that comes as far as its last exchange asks for ten
/// actions: the first wait, the query and the read for waking and for the
/// stale reading, the wait for the fan, and the query and the read for the
/// measurement and for sleep.
pub proof fn lemma_measure_actions<E>(
    config: Config,
    wake: ReadResult<E>,
    stale: ReadResult<E>,
    fresh: ReadResult<E>,
    sleep: ReadResult<E>,
)
    requires
        then::<E>(
            then(Exchange::Wake.spec_conclude(wake, nothing()), Exchange::ReadSensor(true), stale),
            Exchange::ReadSensor(true),
            fresh,
        ) is Ok,
    ensures
        RunState::start(Task::Measure, config).asked(measure_events(wake, stale, fresh, sleep))
            == seq![
            ActionView::Delay(config.sleep_delay),
            query_of(Exchange::Wake),
            ActionView::Read,
            query_of(Exchange::ReadSensor(true)),
            ActionView::Read,
            ActionView::Delay(config.measure_delay),
            query_of(Exchange::ReadSensor(true)),
            ActionView::Read,
            query_of(Exchange::Sleep),
            ActionView::Read,
        ],
{
    reveal_with_fuel(RunState::asked_from, 11);
    assert(RunState::start(Task::Measure, config).asked(measure_events(wake, stale, fresh, sleep))
        =~= seq![
        ActionView::Delay(config.sleep_delay),
        query_of(Exchange::Wake),
        ActionView::Read,
        query_of(Exchange::ReadSensor(true)),
        ActionView::Read,
        ActionView::Delay(config.measure_delay),
        query_of(Exchange::ReadSensor(true)),
        ActionView::Read,
        query_of(Exchange::Sleep),
        ActionView::Read,
    ]);
}

/// The events of a change to periodic measurement in which every write
/// goes well and the three reads come out as given.
pub open spec fn periodic_events<E>(
    wake: ReadResult<E>,
    period: ReadResult<E>,
    mode: ReadResult<E>,
) -> Seq<Event<E>> {
    seq![
        Event::Delayed,
        Event::Written(Ok(())),
        Event::Read(wake),
        Event::Written(Ok(())),
        Event::Read(period),
        Event::Written(Ok(())),
        Event::Read(mode),
    ]
}

/// What a change to periodic measurement comes to: the sensor must confirm
/// that it woke, confirm the working period and confirm that it reports on
/// its own, in this order.
pub open spec fn periodic_outcome<E>(
    minutes: u8,
    wake: ReadResult<E>,
    period: ReadResult<E>,
    mode: ReadResult<E>,
) -> Result<Findings, SDS011Error<E>> {
    then(
        then(Exchange::Wake.spec_conclude(wake, nothing()), Exchange::SetPeriod(minutes), period),
        Exchange::SetRunmodeActive,
        mode,
    )
}

/// A change to periodic measurement goes through its three exchanges in
/// order and ends with the first that fails.
pub proof fn lemma_make_periodic<E>(
    config: Config,
    minutes: u8,
    wake: ReadResult<E>,
    period: ReadResult<E>,
    mode: ReadResult<E>,
)
    ensures
        RunState::start(Task::MakePeriodic(minutes), config).run(
            periodic_events(wake, period, mode),
        ) == ended(periodic_outcome(minutes, wake, period, mode)),
{
    reveal_with_fuel(RunState::run_from, 8);
}

/// A change to periodic measurement that comes as far as its last
/// exchange asks for seven actions: the wait, and for each of wake, working
/// period and active mode the query and the read of its reply.
pub proof fn lemma_make_periodic_actions<E>(
    config: Config,
    minutes: u8,
    wake: ReadResult<E>,
    period: ReadResult<E>,
    mode: ReadResult<E>,
)
    requires
        then::<E>(
            Exchange::Wake.spec_conclude(wake, nothing()),
            Exchange::SetPeriod(minutes),
            period,
        ) is Ok,
    ensures
        RunState::start(Task::MakePeriodic(minutes), config).asked(
            periodic_events(wake, period, mode),
        ) == seq![
            ActionView::Delay(config.sleep_delay),
            query_of(Exchange::Wake),
            ActionView::Read,
            query_of(Exchange::SetPeriod(minutes)),
            ActionView::Read,
            query_of(Exchange::SetRunmodeActive),
            ActionView::Read,
        ],
{
    reveal_with_fuel(RunState::asked_from, 8);
    assert(RunState::start(Task::MakePeriodic(minutes), config).asked(
        periodic_events(wake, period, mode),
    ) =~= seq![
        ActionView::Delay(config.sleep_delay),
        query_of(Exchange::Wake),
        ActionView::Read,
        query_of(Exchange::SetPeriod(minutes)),
        ActionView::Read,
        query_of(Exchange::SetRunmodeActive),
        ActionView::Read,
    ]);
}

/// In the periodic phase a measurement is one read, with nothing written
/// and no wait: it is done with the measurement that the sensor sent, and
/// fails on any other reply.
pub proof fn lemma_listen<E>(config: Config, read: ReadResult<E>)
    ensures
        RunState::start(Task::Listen, config).action() == ActionView::Read,
        RunState::start(Task::Listen, config).resume(Event::Read(read)) == ended(
            Exchange::ReadSensor(false).spec_conclude(read, nothing()),
        ),
{
}

} // verus!
