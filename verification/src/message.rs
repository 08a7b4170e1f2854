//! Frames of the sensor's serial protocol and the typed messages they carry.
//!
//! A reply is ten bytes: head `0xAA`, command, six data bytes (the last two
//! are the sender's id, high byte first), checksum, tail `0xAB`. A query is
//! nineteen bytes: head, command `0xB4`, subcommand, twelve payload bytes, the
//! target id, checksum, tail. The checksum is the sum of the bytes between
//! command and checksum, wrapping at 256.
use vstd::prelude::*;
use vstd::std_specs::convert::TryFromSpecImpl;

verus! {

/// Length of a reply frame in bytes.
pub const RECV_BUF_SIZE: usize = 10;

/// Length of a query frame in bytes.
pub const SEND_BUF_SIZE: usize = 19;

/// First byte of every frame.
pub const HEAD: u8 = 0xAA;

/// Last byte of every frame.
pub const TAIL: u8 = 0xAB;

/// Last byte of the reply that confirms a sleep or wake command on some devices.
pub const SLEEP_TAIL: u8 = 0xFF;

/// Command byte of every query.
pub const CMD_QUERY: u8 = 0xB4;

/// Command byte of a reply that carries a measurement.
pub const CMD_DATA: u8 = 0xC0;

/// Command byte of a reply to a configuration query.
pub const CMD_REPLY: u8 = 0xC5;

/// Target id that addresses every sensor on the line.
pub const BROADCAST: u16 = 0xFFFF;

/// Longest working period, in minutes, that the sensor accepts.
pub const MAX_PERIOD: u8 = 30;

/// Subcommand byte of the messages about the reporting mode.
pub const SUB_REPORTING: u8 = 2;

/// Subcommand byte of the query for a measurement.
pub const SUB_QUERY: u8 = 4;

/// Subcommand byte of the messages about the device id.
pub const SUB_DEVICE_ID: u8 = 5;

/// Subcommand byte of the messages about the sleep mode.
pub const SUB_SLEEP: u8 = 6;

/// Subcommand byte of the messages about the firmware version.
pub const SUB_FIRMWARE: u8 = 7;

/// Subcommand byte of the messages about the working period.
pub const SUB_PERIOD: u8 = 8;

/// Why a reply frame was rejected.
#[derive(Debug, Clone, Copy, PartialEq, Eq)]
pub enum ParseError {
    /// A field that must be 0 or 1 holds this value.
    BooleanField(u8),
    /// A working period above thirty minutes.
    TimeField(u8),
    /// The frame does not start with `0xAA` or does not end with `0xAB`.
    HeadTail,
    /// The command byte is neither `0xC0` nor `0xC5`.
    CommandID(u8),
    /// The subcommand byte of a `0xC5` reply names no message.
    SubCommand(u8),
    /// The sum of the data bytes (first) differs from the checksum byte (second).
    Checksum(u8, u8),
}

/// The plain sum of the bytes of `bytes`.
pub open spec fn byte_sum(bytes: Seq<u8>) -> int
    decreases bytes.len(),
{
    if bytes.len() == 0 {
        0
    } else {
        byte_sum(bytes.drop_last()) + bytes.last()
    }
}

/// The checksum of `bytes`: their sum modulo 256.
pub open spec fn checksum(bytes: Seq<u8>) -> u8 {
    (byte_sum(bytes) % 256) as u8
}

/// The 16-bit value whose high byte is `hi` and whose low byte is `lo`.
pub open spec fn be16(hi: u8, lo: u8) -> u16 {
    (hi * 256 + lo) as u16
}

/// The 16-bit value whose low byte is `lo` and whose high byte is `hi`.
pub open spec fn le16(lo: u8, hi: u8) -> u16 {
    be16(hi, lo)
}

/// The high byte of `value`.
pub open spec fn high_byte(value: u16) -> u8 {
    (value / 256) as u8
}

/// The low byte of `value`.
pub open spec fn low_byte(value: u16) -> u8 {
    (value % 256) as u8
}

/// Splits `value` into its high and its low byte.
pub fn split_u16(value: u16) -> (bytes: (u8, u8))
    ensures
        bytes.0 == high_byte(value),
        bytes.1 == low_byte(value),
        be16(bytes.0, bytes.1) == value,
{
    ((value / 256) as u8, (value % 256) as u8)
}

/// Joins a high and a low byte into one 16-bit value.
pub fn join_u16(hi: u8, lo: u8) -> (value: u16)
    ensures
        value == be16(hi, lo),
        high_byte(value) == hi,
        low_byte(value) == lo,
{
    (hi as u16) * 256 + (lo as u16)
}

/// Computes the checksum of `data[from..to]`.
pub fn sum_bytes(data: &[u8], from: usize, to: usize) -> (sum: u8)
    requires
        from <= to <= data@.len(),
    ensures
        sum == checksum(data@.subrange(from as int, to as int)),
{
    let mut sum: u8 = 0;
    let mut i: usize = from;
    while i < to
        invariant
            from <= i <= to <= data@.len(),
            sum == checksum(data@.subrange(from as int, i as int)),
        decreases to - i,
    {
        proof {
            let next = data@.subrange(from as int, i + 1);
            assert(next.drop_last() =~= data@.subrange(from as int, i as int));
            assert(next.last() == data@[i as int]);
        }
        sum = sum.wrapping_add(data[i]);
        i += 1;
    }
    sum
}

/// A measurement of PM2.5 and PM10 fine dust pollution.
#[derive(Debug, Clone, Copy, PartialEq, Eq)]
pub struct Measurement {
    /// PM2.5 in tenths of a microgram per cubic metre.
    pub pm25: u16,
    /// PM10 in tenths of a microgram per cubic metre.
    pub pm10: u16,
}

impl Measurement {
    /// The measurement that a reply with these bytes carries.
    pub open spec fn spec_from_bytes(data: Seq<u8>) -> Measurement {
        Measurement { pm25: le16(data[2], data[3]), pm10: le16(data[4], data[5]) }
    }

    /// Reads the two values, each low byte first, from bytes 2 to 5 of a reply.
    pub fn from_bytes(data: &[u8; RECV_BUF_SIZE]) -> (m: Measurement)
        ensures
            m == Self::spec_from_bytes(data@),
    {
        Measurement { pm25: join_u16(data[3], data[2]), pm10: join_u16(data[5], data[4]) }
    }

    /// Retrieve the PM2.5 fine dust value. Divide by ten to get µg/m3.
    #[must_use]
    pub fn pm25(&self) -> (value: u16)
        ensures
            value == self.pm25,
    {
        self.pm25
    }

    /// Retrieve the PM10 fine dust value. Divide by ten to get µg/m3.
    #[must_use]
    pub fn pm10(&self) -> (value: u16)
        ensures
            value == self.pm10,
    {
        self.pm10
    }
}

/// Whether a message asks for a setting or changes it.
#[derive(Debug, Clone, Copy, PartialEq, Eq, Structural)]
pub enum QueryMode {
    /// The setting is read.
    Query,
    /// The setting is written.
    Update,
}

impl QueryMode {
    /// The byte that stands for this mode in a frame.
    pub open spec fn spec_byte(self) -> u8 {
        match self {
            QueryMode::Query => 0,
            QueryMode::Update => 1,
        }
    }

    /// The mode that `value` stands for: 0 reads, 1 writes, anything else is rejected.
    pub open spec fn spec_from_byte(value: u8) -> Result<QueryMode, ParseError> {
        if value == 0 {
            Ok(QueryMode::Query)
        } else if value == 1 {
            Ok(QueryMode::Update)
        } else {
            Err(ParseError::BooleanField(value))
        }
    }

    /// The byte that stands for this mode in a frame.
    pub fn byte(self) -> (b: u8)
        ensures
            b == self.spec_byte(),
    {
        match self {
            QueryMode::Query => 0,
            QueryMode::Update => 1,
        }
    }
}

impl TryFrom<u8> for QueryMode {
    type Error = ParseError;

    fn try_from(value: u8) -> (r: Result<Self, ParseError>) {
        match value {
            0 => Ok(QueryMode::Query),
            1 => Ok(QueryMode::Update),
            e => Err(ParseError::BooleanField(e)),
        }
    }
}

impl TryFromSpecImpl<u8> for QueryMode {
    open spec fn obeys_try_from_spec() -> bool {
        true
    }

    open spec fn try_from_spec(value: u8) -> Result<Self, ParseError> {
        Self::spec_from_byte(value)
    }
}

/// Whether the sensor reports on its own or waits to be asked.
#[derive(Debug, Clone, Copy, PartialEq, Eq, Structural)]
pub enum ReportingMode {
    /// The sensor sends a measurement whenever it has one.
    Active,
    /// The sensor sends a measurement when it is asked for one.
    Query,
}

impl ReportingMode {
    /// The byte that stands for this mode in a frame.
    pub open spec fn spec_byte(self) -> u8 {
        match self {
            ReportingMode::Active => 0,
            ReportingMode::Query => 1,
        }
    }

    /// The mode that `value` stands for: 0 is active, 1 is query, anything else is rejected.
    pub open spec fn spec_from_byte(value: u8) -> Result<ReportingMode, ParseError> {
        if value == 0 {
            Ok(ReportingMode::Active)
        } else if value == 1 {
            Ok(ReportingMode::Query)
        } else {
            Err(ParseError::BooleanField(value))
        }
    }

    /// The byte that stands for this mode in a frame.
    pub fn byte(self) -> (b: u8)
        ensures
            b == self.spec_byte(),
    {
        match self {
            ReportingMode::Active => 0,
            ReportingMode::Query => 1,
        }
    }
}

impl TryFrom<u8> for ReportingMode {
    type Error = ParseError;

    fn try_from(value: u8) -> (r: Result<Self, ParseError>) {
        match value {
            0 => Ok(ReportingMode::Active),
            1 => Ok(ReportingMode::Query),
            e => Err(ParseError::BooleanField(e)),
        }
    }
}

impl TryFromSpecImpl<u8> for ReportingMode {
    open spec fn obeys_try_from_spec() -> bool {
        true
    }

    open spec fn try_from_spec(value: u8) -> Result<Self, ParseError> {
        Self::spec_from_byte(value)
    }
}

/// A request for, or a report of, the reporting mode.
#[derive(Debug, Clone, Copy, PartialEq, Eq)]
pub struct Reporting {
    /// Whether the mode is read or written.
    pub query: QueryMode,
    /// The mode that is written or reported.
    pub reporting: ReportingMode,
}

impl Reporting {
    /// The message that a reply with these bytes carries: byte 3 is the
    /// query flag, byte 4 the mode, and the flag is judged first.
    pub open spec fn spec_from_bytes(data: Seq<u8>) -> Result<Reporting, ParseError> {
        match QueryMode::spec_from_byte(data[3]) {
            Err(e) => Err(e),
            Ok(query) => match ReportingMode::spec_from_byte(data[4]) {
                Err(e) => Err(e),
                Ok(reporting) => Ok(Reporting { query, reporting }),
            },
        }
    }

    /// `data` with this message's two bytes written to positions 3 and 4.
    pub open spec fn spec_populate_query(self, data: Seq<u8>) -> Seq<u8> {
        data.update(3, self.query.spec_byte()).update(4, self.reporting.spec_byte())
    }

    /// Reads the query flag and the reporting mode from a reply.
    pub fn from_bytes(data: &[u8; RECV_BUF_SIZE]) -> (r: Result<Self, ParseError>)
        ensures
            r == Self::spec_from_bytes(data@),
    {
        let mode = QueryMode::try_from(data[3])?;
        let query = ReportingMode::try_from(data[4])?;
        Ok(Reporting { query: mode, reporting: query })
    }

    /// Writes the query flag and the reporting mode into a query.
    pub fn populate_query(&self, data: &mut [u8; SEND_BUF_SIZE])
        ensures
            final(data)@ == self.spec_populate_query(old(data)@),
    {
        data[3] = self.query.byte();
        data[4] = self.reporting.byte();
    }

    /// The message that asks the sensor for its reporting mode.
    pub fn new_query() -> (r: Self)
        ensures
            r == (Reporting { query: QueryMode::Query, reporting: ReportingMode::Active }),
    {
        Reporting { query: QueryMode::Query, reporting: ReportingMode::Active }
    }

    /// The message that sets the sensor's reporting mode.
    pub fn new_set(reporting: ReportingMode) -> (r: Self)
        ensures
            r == (Reporting { query: QueryMode::Update, reporting }),
    {
        Reporting { query: QueryMode::Update, reporting }
    }

    /// The reporting mode that this message carries.
    pub fn mode(self) -> (m: ReportingMode)
        ensures
            m == self.reporting,
    {
        self.reporting
    }
}

/// Whether the sensor's fan and laser are running.
#[derive(Debug, Clone, Copy, PartialEq, Eq, Structural)]
pub enum SleepMode {
    /// Fan and laser are off.
    Sleep,
    /// Fan and laser are on.
    Work,
}

impl SleepMode {
    /// The byte that stands for this mode in a frame.
    pub open spec fn spec_byte(self) -> u8 {
        match self {
            SleepMode::Sleep => 0,
            SleepMode::Work => 1,
        }
    }

    /// The mode that `value` stands for: 0 is sleep, 1 is work, anything else is rejected.
    pub open spec fn spec_from_byte(value: u8) -> Result<SleepMode, ParseError> {
        if value == 0 {
            Ok(SleepMode::Sleep)
        } else if value == 1 {
            Ok(SleepMode::Work)
        } else {
            Err(ParseError::BooleanField(value))
        }
    }

    /// The byte that stands for this mode in a frame.
    pub fn byte(self) -> (b: u8)
        ensures
            b == self.spec_byte(),
    {
        match self {
            SleepMode::Sleep => 0,
            SleepMode::Work => 1,
        }
    }
}

impl TryFrom<u8> for SleepMode {
    type Error = ParseError;

    fn try_from(value: u8) -> (r: Result<Self, ParseError>) {
        match value {
            0 => Ok(SleepMode::Sleep),
            1 => Ok(SleepMode::Work),
            e => Err(ParseError::BooleanField(e)),
        }
    }
}

impl TryFromSpecImpl<u8> for SleepMode {
    open spec fn obeys_try_from_spec() -> bool {
        true
    }

    open spec fn try_from_spec(value: u8) -> Result<Self, ParseError> {
        Self::spec_from_byte(value)
    }
}

/// A request for, or a report of, the sleep mode.
#[derive(Debug, Clone, Copy, PartialEq, Eq)]
pub struct Sleep {
    /// Whether the mode is read or written.
    pub query: QueryMode,
    /// The mode that is written or reported.
    pub sleep: SleepMode,
}

impl Sleep {
    /// The message that a reply with these bytes carries: byte 3 is the
    /// query flag, byte 4 the mode, and the flag is judged first.
    pub open spec fn spec_from_bytes(data: Seq<u8>) -> Result<Sleep, ParseError> {
        match QueryMode::spec_from_byte(data[3]) {
            Err(e) => Err(e),
            Ok(query) => match SleepMode::spec_from_byte(data[4]) {
                Err(e) => Err(e),
                Ok(sleep) => Ok(Sleep { query, sleep }),
            },
        }
    }

    /// `data` with this message's two bytes written to positions 3 and 4.
    pub open spec fn spec_populate_query(self, data: Seq<u8>) -> Seq<u8> {
        data.update(3, self.query.spec_byte()).update(4, self.sleep.spec_byte())
    }

    /// Reads the query flag and the sleep mode from a reply.
    pub fn from_bytes(data: &[u8; RECV_BUF_SIZE]) -> (r: Result<Self, ParseError>)
        ensures
            r == Self::spec_from_bytes(data@),
    {
        let mode = QueryMode::try_from(data[3])?;
        let work = SleepMode::try_from(data[4])?;
        Ok(Sleep { query: mode, sleep: work })
    }

    /// Writes the query flag and the sleep mode into a query.
    pub fn populate_query(&self, data: &mut [u8; SEND_BUF_SIZE])
        ensures
            final(data)@ == self.spec_populate_query(old(data)@),
    {
        data[3] = self.query.byte();
        data[4] = self.sleep.byte();
    }

    /// The message that asks the sensor whether it sleeps.
    pub fn new_query() -> (r: Self)
        ensures
            r == (Sleep { query: QueryMode::Query, sleep: SleepMode::Sleep }),
    {
        Sleep { query: QueryMode::Query, sleep: SleepMode::Sleep }
    }

    /// The message that sends the sensor to sleep or wakes it.
    pub fn new_set(sleep: SleepMode) -> (r: Self)
        ensures
            r == (Sleep { query: QueryMode::Update, sleep }),
    {
        Sleep { query: QueryMode::Update, sleep }
    }

    /// The sleep mode that this message carries.
    pub fn sleep_mode(self) -> (m: SleepMode)
        ensures
            m == self.sleep,
    {
        self.sleep
    }
}

/// A request for, or a report of, the working period: the sensor measures
/// once every so many minutes, and continuously when the period is zero.
#[derive(Debug, Clone, Copy, PartialEq, Eq)]
pub struct WorkingPeriod {
    /// Whether the period is read or written.
    pub query: QueryMode,
    /// The period in minutes.
    pub minutes: u8,
}

impl WorkingPeriod {
    /// The message that a reply with these bytes carries: byte 3 is the
    /// query flag, byte 4 the period, at most thirty minutes, and the flag is
    /// judged first.
    pub open spec fn spec_from_bytes(data: Seq<u8>) -> Result<WorkingPeriod, ParseError> {
        match QueryMode::spec_from_byte(data[3]) {
            Err(e) => Err(e),
            Ok(query) => if data[4] > MAX_PERIOD {
                Err(ParseError::TimeField(data[4]))
            } else {
                Ok(WorkingPeriod { query, minutes: data[4] })
            },
        }
    }

    /// `data` with this message's two bytes written to positions 3 and 4.
    pub open spec fn spec_populate_query(self, data: Seq<u8>) -> Seq<u8> {
        data.update(3, self.query.spec_byte()).update(4, self.minutes)
    }

    /// Reads the query flag and the working period from a reply.
    pub fn from_bytes(data: &[u8; RECV_BUF_SIZE]) -> (r: Result<Self, ParseError>)
        ensures
            r == Self::spec_from_bytes(data@),
    {
        let mode = QueryMode::try_from(data[3])?;
        let time = data[4];

        if time > MAX_PERIOD {
            Err(ParseError::TimeField(time))
        } else {
            Ok(WorkingPeriod { query: mode, minutes: time })
        }
    }

    /// Writes the query flag and the working period into a query.
    pub fn populate_query(&self, data: &mut [u8; SEND_BUF_SIZE])
        ensures
            final(data)@ == self.spec_populate_query(old(data)@),
    {
        data[3] = self.query.byte();
        data[4] = self.minutes;
    }

    /// The message that asks the sensor for its working period.
    pub fn new_query() -> (r: Self)
        ensures
            r == (WorkingPeriod { query: QueryMode::Query, minutes: 0 }),
    {
        WorkingPeriod { query: QueryMode::Query, minutes: 0 }
    }

    /// The message that sets the sensor's working period.
    pub fn new_set(minutes: u8) -> (r: Self)
        ensures
            r == (WorkingPeriod { query: QueryMode::Update, minutes }),
    {
        WorkingPeriod { query: QueryMode::Update, minutes }
    }

    /// The working period, in minutes, that this message carries.
    pub fn period(&self) -> (minutes: u8)
        ensures
            minutes == self.minutes,
    {
        self.minutes
    }
}

/// The id that a sensor is to answer to from now on.
#[derive(Debug, Clone, Copy, PartialEq, Eq)]
pub struct NewDeviceID(pub u16);

impl NewDeviceID {
    /// The id that a reply with these bytes reports: the sender's id.
    pub open spec fn spec_from_bytes(data: Seq<u8>) -> NewDeviceID {
        NewDeviceID(be16(data[6], data[7]))
    }

    /// `data` with the new id written to positions 13 and 14, high byte first.
    pub open spec fn spec_populate_query(self, data: Seq<u8>) -> Seq<u8> {
        data.update(13, high_byte(self.0)).update(14, low_byte(self.0))
    }

    /// Reads the new id from a reply.
    pub fn from_bytes(data: &[u8; RECV_BUF_SIZE]) -> (id: Self)
        ensures
            id == Self::spec_from_bytes(data@),
    {
        NewDeviceID(join_u16(data[6], data[7]))
    }

    /// Writes the new id into a query.
    pub fn populate_query(&self, data: &mut [u8; SEND_BUF_SIZE])
        ensures
            final(data)@ == self.spec_populate_query(old(data)@),
    {
        let bytes = split_u16(self.0);
        data[13] = bytes.0;
        data[14] = bytes.1;
    }
}

/// The firmware version of the sensor: the date of its build.
#[derive(Debug, Clone, Copy, PartialEq, Eq)]
pub struct FirmwareVersion {
    /// Years since 2000.
    pub year: u8,
    /// Month of the year.
    pub month: u8,
    /// Day of the month.
    pub day: u8,
}

/// The character that stands for the digit `d`.
pub open spec fn digit(d: int) -> char {
    if d == 0 {
        '0'
    } else if d == 1 {
        '1'
    } else if d == 2 {
        '2'
    } else if d == 3 {
        '3'
    } else if d == 4 {
        '4'
    } else if d == 5 {
        '5'
    } else if d == 6 {
        '6'
    } else if d == 7 {
        '7'
    } else if d == 8 {
        '8'
    } else {
        '9'
    }
}

/// `n` written in decimal, without leading zeros.
pub open spec fn decimal(n: nat) -> Seq<char>
    decreases n,
{
    if n < 10 {
        seq![digit(n as int)]
    } else {
        decimal(n / 10).push(digit((n % 10) as int))
    }
}

/// `n` written in decimal with at least two digits.
pub open spec fn two_digits(n: nat) -> Seq<char> {
    if n < 10 {
        seq!['0'] + decimal(n)
    } else {
        decimal(n)
    }
}

/// The text of one decimal digit.
fn digit_str(d: u8) -> (s: &'static str)
    requires
        d < 10,
    ensures
        s@ == seq![digit(d as int)],
{
    let s = match d {
        0 => "0",
        1 => "1",
        2 => "2",
        3 => "3",
        4 => "4",
        5 => "5",
        6 => "6",
        7 => "7",
        8 => "8",
        _ => "9",
    };
    proof {
        reveal_strlit("0");
        reveal_strlit("1");
        reveal_strlit("2");
        reveal_strlit("3");
        reveal_strlit("4");
        reveal_strlit("5");
        reveal_strlit("6");
        reveal_strlit("7");
        reveal_strlit("8");
        reveal_strlit("9");
        assert(s@ =~= seq![digit(d as int)]);
    }
    s
}

/// Appends `n` in decimal to `text`.
fn push_decimal(text: &mut String, n: u16)
    ensures
        final(text)@ == old(text)@ + decimal(n as nat),
    decreases n,
{
    if n >= 10 {
        push_decimal(text, n / 10);
    }
    text.append(digit_str((n % 10) as u8));
    proof {
        if n >= 10 {
            assert(final(text)@ =~= old(text)@ + decimal(n as nat));
        }
    }
}

/// Appends `n` in decimal, with at least two digits, to `text`.
fn push_two_digits(text: &mut String, n: u8)
    ensures
        final(text)@ == old(text)@ + two_digits(n as nat),
{
    if n < 10 {
        text.append(digit_str(0));
    }
    push_decimal(text, n as u16);
    proof {
        assert(final(text)@ =~= old(text)@ + two_digits(n as nat));
    }
}

impl FirmwareVersion {
    /// The version that a reply with these bytes carries.
    pub open spec fn spec_from_bytes(data: Seq<u8>) -> FirmwareVersion {
        FirmwareVersion { year: data[3], month: data[4], day: data[5] }
    }

    /// The version as a date: the year, counted from 2000, then month and
    /// day with two digits each, with a dot between them.
    pub open spec fn spec_to_string(self) -> Seq<char> {
        decimal((2000 + self.year) as nat) + seq!['.'] + two_digits(self.month as nat) + seq!['.']
            + two_digits(self.day as nat)
    }

    /// The version as a date, such as `2015.07.10`.
    pub fn to_string(&self) -> (text: String)
        ensures
            text@ == self.spec_to_string(),
    {
        let mut text = String::new();
        push_decimal(&mut text, 2000 + self.year as u16);
        text.append(".");
        push_two_digits(&mut text, self.month);
        text.append(".");
        push_two_digits(&mut text, self.day);
        proof {
            reveal_strlit(".");
            assert("."@ =~= seq!['.']);
            assert(text@ =~= self.spec_to_string());
        }
        text
    }

    /// Reads year, month and day from bytes 3 to 5 of a reply.
    pub fn from_bytes(data: &[u8; RECV_BUF_SIZE]) -> (v: Self)
        ensures
            v == Self::spec_from_bytes(data@),
    {
        FirmwareVersion { year: data[3], month: data[4], day: data[5] }
    }
}

/// What a frame says.
#[derive(Debug, Clone, Copy, PartialEq, Eq)]
pub enum Kind {
    /// The reporting mode, asked for, set or reported.
    ReportingMode(Reporting),
    /// A measurement: asked for (without a value) or reported (with one).
    Query(Option<Measurement>),
    /// A new device id, assigned or confirmed.
    SetDeviceID(NewDeviceID),
    /// The sleep mode, asked for, set or reported.
    Sleep(Sleep),
    /// The working period, asked for, set or reported.
    WorkingPeriod(WorkingPeriod),
    /// The firmware version: asked for (without a value) or reported (with one).
    FWVersion(Option<FirmwareVersion>),
}

impl Kind {
    /// The subcommand byte that names this kind of message in a query.
    pub open spec fn subcommand(self) -> u8 {
        match self {
            Kind::ReportingMode(_) => SUB_REPORTING,
            Kind::Query(_) => SUB_QUERY,
            Kind::SetDeviceID(_) => SUB_DEVICE_ID,
            Kind::Sleep(_) => SUB_SLEEP,
            Kind::WorkingPeriod(_) => SUB_PERIOD,
            Kind::FWVersion(_) => SUB_FIRMWARE,
        }
    }

    /// What the command, subcommand and data bytes of a reply say. Command
    /// `0xC0` is a measurement; under command `0xC5` the subcommand byte
    /// picks the message, whose fields are then judged.
    pub open spec fn spec_parse(data: Seq<u8>) -> Result<Kind, ParseError> {
        if data[1] == CMD_DATA {
            Ok(Kind::Query(Some(Measurement::spec_from_bytes(data))))
        } else if data[1] != CMD_REPLY {
            Err(ParseError::CommandID(data[1]))
        } else if data[2] == SUB_REPORTING {
            match Reporting::spec_from_bytes(data) {
                Ok(r) => Ok(Kind::ReportingMode(r)),
                Err(e) => Err(e),
            }
        } else if data[2] == SUB_DEVICE_ID {
            Ok(Kind::SetDeviceID(NewDeviceID::spec_from_bytes(data)))
        } else if data[2] == SUB_SLEEP {
            match Sleep::spec_from_bytes(data) {
                Ok(s) => Ok(Kind::Sleep(s)),
                Err(e) => Err(e),
            }
        } else if data[2] == SUB_PERIOD {
            match WorkingPeriod::spec_from_bytes(data) {
                Ok(w) => Ok(Kind::WorkingPeriod(w)),
                Err(e) => Err(e),
            }
        } else if data[2] == SUB_FIRMWARE {
            Ok(Kind::FWVersion(Some(FirmwareVersion::spec_from_bytes(data))))
        } else {
            Err(ParseError::SubCommand(data[2]))
        }
    }

    /// `data` with this message written into it: the command byte, the
    /// subcommand byte and the payload bytes that the message has. All other
    /// bytes stay as they are.
    pub open spec fn spec_populate_query(self, data: Seq<u8>) -> Seq<u8> {
        let filled = match self {
            Kind::ReportingMode(r) => r.spec_populate_query(data),
            Kind::Query(_) => data,
            Kind::SetDeviceID(d) => d.spec_populate_query(data),
            Kind::Sleep(s) => s.spec_populate_query(data),
            Kind::WorkingPeriod(w) => w.spec_populate_query(data),
            Kind::FWVersion(_) => data,
        };
        filled.update(1, CMD_QUERY).update(2, self.subcommand())
    }

    /// Whether this is the command that sends the sensor to sleep or wakes it.
    pub open spec fn is_sleep_command(self) -> bool {
        self matches Kind::Sleep(s) && s.query == QueryMode::Update
    }

    /// Whether a reply that says this may end in `tail`. Every reply ends in
    /// `0xAB`; the reply to a sleep or wake command may end in `0xFF` instead.
    pub open spec fn spec_accepts_tail(self, tail: u8) -> bool {
        tail == TAIL || (tail == SLEEP_TAIL && self.is_sleep_command())
    }

    /// Reads the message that a reply carries.
    pub fn parse(data: &[u8; RECV_BUF_SIZE]) -> (r: Result<Self, ParseError>)
        ensures
            r == Self::spec_parse(data@),
    {
        match data[1] {
            0xC0 => Ok(Kind::Query(Some(Measurement::from_bytes(data)))),
            0xC5 => match data[2] {
                2 => Ok(Kind::ReportingMode(Reporting::from_bytes(data)?)),
                5 => Ok(Kind::SetDeviceID(NewDeviceID::from_bytes(data))),
                6 => Ok(Kind::Sleep(Sleep::from_bytes(data)?)),
                8 => Ok(Kind::WorkingPeriod(WorkingPeriod::from_bytes(data)?)),
                7 => Ok(Kind::FWVersion(Some(FirmwareVersion::from_bytes(data)))),
                s => Err(ParseError::SubCommand(s)),
            },
            c => Err(ParseError::CommandID(c)),
        }
    }

    /// Writes this message into a query: command, subcommand and payload.
    pub fn populate_query(&self, data: &mut [u8; SEND_BUF_SIZE])
        ensures
            final(data)@ == self.spec_populate_query(old(data)@),
    {
        let subcommand: u8 = match self {
            Kind::ReportingMode(r) => {
                r.populate_query(data);
                SUB_REPORTING
            },
            Kind::Query(_) => SUB_QUERY,
            Kind::SetDeviceID(d) => {
                d.populate_query(data);
                SUB_DEVICE_ID
            },
            Kind::Sleep(s) => {
                s.populate_query(data);
                SUB_SLEEP
            },
            Kind::WorkingPeriod(w) => {
                w.populate_query(data);
                SUB_PERIOD
            },
            Kind::FWVersion(_) => SUB_FIRMWARE,
        };

        data[1] = CMD_QUERY;
        data[2] = subcommand;
    }

    /// Whether a reply that says this may end in `tail`.
    pub fn accepts_tail(&self, tail: u8) -> (ok: bool)
        ensures
            ok == self.spec_accepts_tail(tail),
    {
        if tail == TAIL {
            true
        } else {
            match self {
                Kind::Sleep(s) => match s.query {
                    QueryMode::Update => tail == SLEEP_TAIL,
                    QueryMode::Query => false,
                },
                _ => false,
            }
        }
    }
}

/// A message together with the sensor it comes from or goes to.
#[derive(Debug, Clone, Copy, PartialEq, Eq)]
pub struct Message {
    /// What the message says.
    pub kind: Kind,
    /// In a reply, the id of the sensor that sent it. In a query, the id of
    /// the sensor that is to act on it, or `None` for every sensor.
    pub sensor_id: Option<u16>,
}

impl Message {
    /// Whether this is something a sensor can say in a reply: it names its
    /// sender, carries the value it reports, keeps the working period within
    /// thirty minutes, and confirms a new id under that id.
    pub open spec fn is_reply(self) -> bool {
        &&& self.sensor_id is Some
        &&& match self.kind {
            Kind::Query(m) => m is Some,
            Kind::FWVersion(v) => v is Some,
            Kind::WorkingPeriod(w) => w.minutes <= MAX_PERIOD,
            Kind::SetDeviceID(d) => self.sensor_id == Some(d.0),
            Kind::ReportingMode(_) => true,
            Kind::Sleep(_) => true,
        }
    }

    /// The id that a query for this message is addressed to.
    pub open spec fn target(self) -> u16 {
        match self.sensor_id {
            None => BROADCAST,
            Some(id) => id,
        }
    }

    /// The bytes of a query between command and checksum: the subcommand,
    /// twelve payload bytes and the target id.
    pub open spec fn query_body(self) -> Seq<u8> {
        let blank = Seq::new(SEND_BUF_SIZE as nat, |i: int| 0u8);
        self.kind.spec_populate_query(blank).subrange(2, 15) + seq![
            high_byte(self.target()),
            low_byte(self.target()),
        ]
    }

    /// The query frame for this message.
    pub open spec fn spec_create_query(self) -> Seq<u8> {
        seq![HEAD, CMD_QUERY] + self.query_body() + seq![checksum(self.query_body()), TAIL]
    }

    /// What a reply frame says, or why it is rejected. The checksum is
    /// judged first, then command, subcommand and fields, then head and tail.
    pub open spec fn spec_parse_reply(data: Seq<u8>) -> Result<Message, ParseError> {
        let sum = checksum(data.subrange(2, 8));
        if sum != data[8] {
            Err(ParseError::Checksum(sum, data[8]))
        } else {
            match Kind::spec_parse(data) {
                Err(e) => Err(e),
                Ok(kind) => if data[0] == HEAD && kind.spec_accepts_tail(data[9]) {
                    Ok(Message { kind, sensor_id: Some(be16(data[6], data[7])) })
                } else {
                    Err(ParseError::HeadTail)
                },
            }
        }
    }

    /// Decodes a reply frame.
    pub fn parse_reply(data: &[u8; RECV_BUF_SIZE]) -> (r: Result<Self, ParseError>)
        ensures
            r == Self::spec_parse_reply(data@),
            r matches Ok(reply) ==> reply.is_reply(),
    {
        // checksum = sum of data bytes
        let chksum = sum_bytes(data, 2, 8);
        if chksum != data[8] {
            return Err(ParseError::Checksum(chksum, data[8]));
        }
        let msg = Kind::parse(data)?;
        let sensor_id = join_u16(data[6], data[7]);

        // check head and tail
        if data[0] != HEAD || !msg.accepts_tail(data[9]) {
            return Err(ParseError::HeadTail);
        }
        Ok(Message { kind: msg, sensor_id: Some(sensor_id) })
    }

    /// Encodes this message as a query frame.
    pub fn create_query(&self) -> (output: [u8; SEND_BUF_SIZE])
        ensures
            output@ == self.spec_create_query(),
    {
        let mut output = [0u8; SEND_BUF_SIZE];
        output[0] = HEAD;
        output[18] = TAIL;

        self.kind.populate_query(&mut output);

        match self.sensor_id {
            None => {
                output[15] = 0xFF;
                output[16] = 0xFF;
            },
            Some(id) => {
                let bytes = split_u16(id);
                output[15] = bytes.0;
                output[16] = bytes.1;
            },
        }

        // calculate checksum
        assert(output@.subrange(2, 17) =~= self.query_body());
        let chksum = sum_bytes(&output, 2, 17);
        output[17] = chksum;

        proof {
            let body = self.query_body();
            let frame = self.spec_create_query();
            assert(body.len() == 15);
            assert(frame.len() == SEND_BUF_SIZE);
            assert forall|i: int| 0 <= i < SEND_BUF_SIZE implies output@[i] == frame[i] by {
                if 2 <= i < 17 {
                    assert(frame[i] == body[i - 2]);
                }
            }
            assert(output@ =~= frame);
        }
        output
    }

    /// A message of the given kind for, or from, the given sensor.
    pub fn new(kind: Kind, target_sensor: Option<u16>) -> (m: Self)
        ensures
            m == (Message { kind, sensor_id: target_sensor }),
    {
        Message { kind, sensor_id: target_sensor }
    }
}

} // verus!
