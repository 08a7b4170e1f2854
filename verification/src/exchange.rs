//! One exchange with the sensor: the query that is written, and what the
//! reply must say for the exchange to count as done.
//!
//! Nothing here touches the serial line. The frame to write is handed out,
//! and what came of reading the reply is taken in, as plain values.
use crate::error::{ReadExactError, SDS011Error};
use crate::message::{
    FirmwareVersion, Kind, Measurement, Message, QueryMode, Reporting, ReportingMode, Sleep,
    SleepMode, WorkingPeriod, MAX_PERIOD, RECV_BUF_SIZE, SEND_BUF_SIZE,
};
use vstd::prelude::*;

verus! {

/// What came of reading one reply frame from the serial line.
pub type ReadResult<E> = Result<[u8; RECV_BUF_SIZE], ReadExactError<E>>;

/// What the sensor has told the driver so far.
#[derive(Debug, Clone, Copy, PartialEq, Eq)]
pub struct Findings {
    /// The sensor's id.
    pub id: Option<u16>,
    /// The sensor's firmware version.
    pub firmware: Option<FirmwareVersion>,
    /// The latest measurement.
    pub measurement: Option<Measurement>,
}

/// The query frame for `kind`, addressed to every sensor on the line.
pub open spec fn spec_send_message(kind: Kind) -> Seq<u8> {
    (Message { kind, sensor_id: None }).spec_create_query()
}

/// The error that a failed write is reported as.
pub open spec fn spec_written<E>(outcome: Result<(), E>) -> Result<(), SDS011Error<E>> {
    match outcome {
        Ok(()) => Ok(()),
        Err(e) => Err(SDS011Error::WriteError(e)),
    }
}

/// The message that was read, or why there is none: the stream ended, the
/// serial interface failed, or the frame was rejected.
pub open spec fn spec_get_reply<E>(read: ReadResult<E>) -> Result<Message, SDS011Error<E>> {
    match read {
        Ok(buf) => match Message::spec_parse_reply(buf@) {
            Ok(reply) => Ok(reply),
            Err(e) => Err(SDS011Error::ParseError(e)),
        },
        Err(ReadExactError::UnexpectedEof) => Err(SDS011Error::UnexpectedEof),
        Err(ReadExactError::Other(e)) => Err(SDS011Error::ReadError(e)),
    }
}

/// Whether `reply` is about the same setting as the command `sent`.
pub open spec fn same_setting(sent: Kind, reply: Kind) -> bool {
    match sent {
        Kind::ReportingMode(_) => reply is ReportingMode,
        Kind::Sleep(_) => reply is Sleep,
        Kind::WorkingPeriod(_) => reply is WorkingPeriod,
        Kind::Query(_) => reply is Query,
        Kind::FWVersion(_) => reply is FWVersion,
        Kind::SetDeviceID(_) => reply is SetDeviceID,
    }
}

/// Whether `reply` reports the value that the command `sent` asked for.
pub open spec fn same_value(sent: Kind, reply: Kind) -> bool {
    match (sent, reply) {
        (Kind::ReportingMode(s), Kind::ReportingMode(r)) => s.reporting == r.reporting,
        (Kind::Sleep(s), Kind::Sleep(r)) => s.sleep == r.sleep,
        (Kind::WorkingPeriod(s), Kind::WorkingPeriod(r)) => s.minutes == r.minutes,
        (Kind::SetDeviceID(s), Kind::SetDeviceID(r)) => s == r,
        _ => true,
    }
}

/// Whether the reply that was read confirms the command `sent`. A reply
/// about something else is of an unexpected type; one about the same
/// setting with another value means that the command failed.
pub open spec fn spec_confirm<E>(sent: Kind, read: ReadResult<E>) -> Result<(), SDS011Error<E>> {
    match spec_get_reply(read) {
        Err(e) => Err(e),
        Ok(reply) => if !same_setting(sent, reply.kind) {
            Err(SDS011Error::UnexpectedType)
        } else if !same_value(sent, reply.kind) {
            Err(SDS011Error::OperationFailed)
        } else {
            Ok(())
        },
    }
}

/// The measurement that the reply carries; any other reply is of an
/// unexpected type.
pub open spec fn spec_read_sensor<E>(read: ReadResult<E>) -> Result<Measurement, SDS011Error<E>> {
    match spec_get_reply(read) {
        Err(e) => Err(e),
        Ok(reply) => match reply.kind {
            Kind::Query(Some(data)) => Ok(data),
            _ => Err(SDS011Error::UnexpectedType),
        },
    }
}

/// The sender's id and the firmware version that the reply carries; any
/// other reply is of an unexpected type.
pub open spec fn spec_get_firmware<E>(read: ReadResult<E>) -> Result<
    (u16, FirmwareVersion),
    SDS011Error<E>,
> {
    match spec_get_reply(read) {
        Err(e) => Err(e),
        Ok(reply) => match (reply.sensor_id, reply.kind) {
            (Some(id), Kind::FWVersion(Some(data))) => Ok((id, data)),
            _ => Err(SDS011Error::UnexpectedType),
        },
    }
}

/// Encodes the query for `kind`, addressed to every sensor on the line.
pub fn send_message(kind: Kind) -> (frame: [u8; SEND_BUF_SIZE])
    ensures
        frame@ == spec_send_message(kind),
{
    let msg = Message::new(kind, None);
    msg.create_query()
}

/// Reports what came of writing a query.
pub fn written<E>(outcome: Result<(), E>) -> (r: Result<(), SDS011Error<E>>)
    ensures
        r == spec_written(outcome),
{
    match outcome {
        Ok(()) => Ok(()),
        Err(e) => Err(SDS011Error::WriteError(e)),
    }
}

/// Decodes the reply that was read.
pub fn get_reply<E>(read: ReadResult<E>) -> (r: Result<Message, SDS011Error<E>>)
    ensures
        r == spec_get_reply(read),
        r matches Ok(reply) ==> reply.is_reply(),
{
    match read {
        Ok(buf) => match Message::parse_reply(&buf) {
            Ok(reply) => Ok(reply),
            Err(e) => Err(SDS011Error::from(e)),
        },
        Err(ReadExactError::UnexpectedEof) => Err(SDS011Error::UnexpectedEof),
        Err(ReadExactError::Other(e)) => Err(SDS011Error::ReadError(e)),
    }
}

/// Takes the measurement out of the reply that was read.
pub fn read_sensor<E>(read: ReadResult<E>) -> (r: Result<Measurement, SDS011Error<E>>)
    ensures
        r == spec_read_sensor(read),
{
    match get_reply(read)?.kind {
        Kind::Query(data) => Ok(data.unwrap()),
        _ => Err(SDS011Error::UnexpectedType),
    }
}

/// Takes the sender's id and the firmware version out of the reply that was read.
pub fn get_firmware<E>(read: ReadResult<E>) -> (r: Result<(u16, FirmwareVersion), SDS011Error<E>>)
    ensures
        r == spec_get_firmware(read),
{
    let reply = get_reply(read)?;
    let id = reply.sensor_id.unwrap();
    match reply.kind {
        Kind::FWVersion(data) => Ok((id, data.unwrap())),
        _ => Err(SDS011Error::UnexpectedType),
    }
}

/// Takes the reporting mode out of the reply to a query for it.
pub fn get_runmode<E>(read: ReadResult<E>) -> (r: Result<ReportingMode, SDS011Error<E>>)
    ensures
        r == match spec_get_reply(read) {
            Err(e) => Err(e),
            Ok(reply) => match reply.kind {
                Kind::ReportingMode(data) => Ok(data.reporting),
                _ => Err(SDS011Error::UnexpectedType),
            },
        },
{
    match get_reply(read)?.kind {
        Kind::ReportingMode(data) => Ok(data.mode()),
        _ => Err(SDS011Error::UnexpectedType),
    }
}

/// Judges the reply to the command that sets the reporting mode to query.
pub fn set_runmode_query<E>(read: ReadResult<E>) -> (r: Result<(), SDS011Error<E>>)
    ensures
        r == spec_confirm(
            Kind::ReportingMode(
                Reporting { query: QueryMode::Update, reporting: ReportingMode::Query },
            ),
            read,
        ),
{
    match get_reply(read)?.kind {
        Kind::ReportingMode(r) => match r.mode() {
            ReportingMode::Query => Ok(()),
            ReportingMode::Active => Err(SDS011Error::OperationFailed),
        },
        _ => Err(SDS011Error::UnexpectedType),
    }
}

/// Judges the reply to the command that sets the reporting mode to active.
pub fn set_runmode_active<E>(read: ReadResult<E>) -> (r: Result<(), SDS011Error<E>>)
    ensures
        r == spec_confirm(
            Kind::ReportingMode(
                Reporting { query: QueryMode::Update, reporting: ReportingMode::Active },
            ),
            read,
        ),
{
    match get_reply(read)?.kind {
        Kind::ReportingMode(r) => match r.mode() {
            ReportingMode::Active => Ok(()),
            ReportingMode::Query => Err(SDS011Error::OperationFailed),
        },
        _ => Err(SDS011Error::UnexpectedType),
    }
}

/// Takes the working period out of the reply to a query for it.
pub fn get_period<E>(read: ReadResult<E>) -> (r: Result<u8, SDS011Error<E>>)
    ensures
        r == match spec_get_reply(read) {
            Err(e) => Err(e),
            Ok(reply) => match reply.kind {
                Kind::WorkingPeriod(data) => Ok(data.minutes),
                _ => Err(SDS011Error::UnexpectedType),
            },
        },
        r matches Ok(minutes) ==> minutes <= MAX_PERIOD,
{
    match get_reply(read)?.kind {
        Kind::WorkingPeriod(data) => Ok(data.period()),
        _ => Err(SDS011Error::UnexpectedType),
    }
}

/// Judges the reply to the command that sets the working period to `minutes`.
pub fn set_period<E>(minutes: u8, read: ReadResult<E>) -> (r: Result<(), SDS011Error<E>>)
    ensures
        r == spec_confirm(
            Kind::WorkingPeriod(WorkingPeriod { query: QueryMode::Update, minutes }),
            read,
        ),
{
    match get_reply(read)?.kind {
        Kind::WorkingPeriod(data) => if data.period() == minutes {
            Ok(())
        } else {
            Err(SDS011Error::OperationFailed)
        },
        _ => Err(SDS011Error::UnexpectedType),
    }
}

/// Takes the sleep mode out of the reply to a query for it.
pub fn get_sleep<E>(read: ReadResult<E>) -> (r: Result<SleepMode, SDS011Error<E>>)
    ensures
        r == match spec_get_reply(read) {
            Err(e) => Err(e),
            Ok(reply) => match reply.kind {
                Kind::Sleep(data) => Ok(data.sleep),
                _ => Err(SDS011Error::UnexpectedType),
            },
        },
{
    match get_reply(read)?.kind {
        Kind::Sleep(data) => Ok(data.sleep_mode()),
        _ => Err(SDS011Error::UnexpectedType),
    }
}

/// Judges the reply to the command that sends the sensor to sleep.
pub fn sleep<E>(read: ReadResult<E>) -> (r: Result<(), SDS011Error<E>>)
    ensures
        r == spec_confirm(
            Kind::Sleep(Sleep { query: QueryMode::Update, sleep: SleepMode::Sleep }),
            read,
        ),
{
    match get_reply(read)?.kind {
        Kind::Sleep(s) => match s.sleep_mode() {
            SleepMode::Sleep => Ok(()),
            SleepMode::Work => Err(SDS011Error::OperationFailed),
        },
        _ => Err(SDS011Error::UnexpectedType),
    }
}

/// Judges the reply to the command that wakes the sensor.
pub fn wake<E>(read: ReadResult<E>) -> (r: Result<(), SDS011Error<E>>)
    ensures
        r == spec_confirm(
            Kind::Sleep(Sleep { query: QueryMode::Update, sleep: SleepMode::Work }),
            read,
        ),
{
    match get_reply(read)?.kind {
        Kind::Sleep(s) => match s.sleep_mode() {
            SleepMode::Work => Ok(()),
            SleepMode::Sleep => Err(SDS011Error::OperationFailed),
        },
        _ => Err(SDS011Error::UnexpectedType),
    }
}

/// The exchanges that the driver makes with the sensor.
#[derive(Debug, Clone, Copy, PartialEq, Eq)]
pub enum Exchange {
    /// Wake the sensor: fan and laser on.
    Wake,
    /// Send the sensor to sleep: fan and laser off.
    Sleep,
    /// Have the sensor report only when asked.
    SetRunmodeQuery,
    /// Have the sensor report on its own.
    SetRunmodeActive,
    /// Set the working period to so many minutes.
    SetPeriod(u8),
    /// Ask for the firmware version, and learn the sensor's id with it.
    GetFirmware,
    /// Take a measurement: asked for with a query, or awaited without one.
    ReadSensor(bool),
}

impl Exchange {
    /// The message that opens this exchange, if the driver opens it.
    pub open spec fn spec_request(self) -> Option<Kind> {
        match self {
            Exchange::Wake => Some(
                Kind::Sleep(Sleep { query: QueryMode::Update, sleep: SleepMode::Work }),
            ),
            Exchange::Sleep => Some(
                Kind::Sleep(Sleep { query: QueryMode::Update, sleep: SleepMode::Sleep }),
            ),
            Exchange::SetRunmodeQuery => Some(
                Kind::ReportingMode(
                    Reporting { query: QueryMode::Update, reporting: ReportingMode::Query },
                ),
            ),
            Exchange::SetRunmodeActive => Some(
                Kind::ReportingMode(
                    Reporting { query: QueryMode::Update, reporting: ReportingMode::Active },
                ),
            ),
            Exchange::SetPeriod(minutes) => Some(
                Kind::WorkingPeriod(WorkingPeriod { query: QueryMode::Update, minutes }),
            ),
            Exchange::GetFirmware => Some(Kind::FWVersion(None)),
            Exchange::ReadSensor(query) => if query {
                Some(Kind::Query(None))
            } else {
                None
            },
        }
    }

    /// What the driver knows once this exchange's reply has been read, or
    /// why the exchange failed. A command must be confirmed; the firmware
    /// reply adds id and version to what is known, a measurement replaces
    /// the latest one.
    pub open spec fn spec_conclude<E>(self, read: ReadResult<E>, known: Findings) -> Result<
        Findings,
        SDS011Error<E>,
    > {
        match self {
            Exchange::GetFirmware => match spec_get_firmware(read) {
                Ok((id, firmware)) => Ok(
                    Findings { id: Some(id), firmware: Some(firmware), ..known },
                ),
                Err(e) => Err(e),
            },
            Exchange::ReadSensor(_) => match spec_read_sensor(read) {
                Ok(measurement) => Ok(Findings { measurement: Some(measurement), ..known }),
                Err(e) => Err(e),
            },
            _ => match spec_confirm(self.spec_request()->0, read) {
                Ok(()) => Ok(known),
                Err(e) => Err(e),
            },
        }
    }

    /// The message that opens this exchange, if the driver opens it.
    pub fn request(&self) -> (kind: Option<Kind>)
        ensures
            kind == self.spec_request(),
    {
        match self {
            Exchange::Wake => Some(Kind::Sleep(Sleep::new_set(SleepMode::Work))),
            Exchange::Sleep => Some(Kind::Sleep(Sleep::new_set(SleepMode::Sleep))),
            Exchange::SetRunmodeQuery => Some(
                Kind::ReportingMode(Reporting::new_set(ReportingMode::Query)),
            ),
            Exchange::SetRunmodeActive => Some(
                Kind::ReportingMode(Reporting::new_set(ReportingMode::Active)),
            ),
            Exchange::SetPeriod(minutes) => Some(
                Kind::WorkingPeriod(WorkingPeriod::new_set(*minutes)),
            ),
            Exchange::GetFirmware => Some(Kind::FWVersion(None)),
            Exchange::ReadSensor(query) => if *query {
                Some(Kind::Query(None))
            } else {
                None
            },
        }
    }

    /// Judges the reply that was read and adds what it says to what is known.
    pub fn conclude<E>(&self, read: ReadResult<E>, known: Findings) -> (r: Result<
        Findings,
        SDS011Error<E>,
    >)
        ensures
            r == self.spec_conclude(read, known),
    {
        match self {
            Exchange::Wake => {
                wake(read)?;
                Ok(known)
            },
            Exchange::Sleep => {
                sleep(read)?;
                Ok(known)
            },
            Exchange::SetRunmodeQuery => {
                set_runmode_query(read)?;
                Ok(known)
            },
            Exchange::SetRunmodeActive => {
                set_runmode_active(read)?;
                Ok(known)
            },
            Exchange::SetPeriod(minutes) => {
                set_period(*minutes, read)?;
                Ok(known)
            },
            Exchange::GetFirmware => {
                let (id, firmware) = get_firmware(read)?;
                Ok(Findings { id: Some(id), firmware: Some(firmware), ..known })
            },
            Exchange::ReadSensor(_) => {
                let measurement = read_sensor(read)?;
                Ok(Findings { measurement: Some(measurement), ..known })
            },
        }
    }
}

} // verus!
