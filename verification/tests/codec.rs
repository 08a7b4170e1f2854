//! The frame codec on its edges: every way a reply can be rejected, the
//! tail byte of the sleep confirmation, and the text of a firmware version.
use sds011::message::{
    join_u16, split_u16, sum_bytes, FirmwareVersion, Kind, Measurement, Message, NewDeviceID,
    ParseError, QueryMode, Reporting, ReportingMode, Sleep, SleepMode, WorkingPeriod,
    RECV_BUF_SIZE, SEND_BUF_SIZE,
};

/// A reply frame with the given command, data bytes and sender, and with
/// the checksum that belongs to them.
fn reply(command: u8, data: [u8; 4], id: u16) -> [u8; RECV_BUF_SIZE] {
    let hi = (id >> 8) as u8;
    let lo = (id & 0xFF) as u8;
    let mut sum = 0u8;
    for b in data.iter().chain([hi, lo].iter()) {
        sum = sum.wrapping_add(*b);
    }
    [0xAA, command, data[0], data[1], data[2], data[3], hi, lo, sum, 0xAB]
}

#[test]
fn checksum_is_the_wrapping_sum() {
    assert_eq!(sum_bytes(&[0x07, 0x0F, 0x07, 0x0A, 0xA1, 0x60], 0, 6), 0x28);
    assert_eq!(sum_bytes(&[0xFF, 0xFF, 0x02], 0, 3), 0x00);
    assert_eq!(sum_bytes(&[0xFF, 0xFF, 0x02], 1, 3), 0x01);
    assert_eq!(sum_bytes(&[0xFF, 0xFF, 0x02], 2, 2), 0x00);
    assert_eq!(sum_bytes(&[], 0, 0), 0x00);
}

#[test]
fn sixteen_bits_split_and_join() {
    assert_eq!(split_u16(0xA160), (0xA1, 0x60));
    assert_eq!(split_u16(0x0000), (0x00, 0x00));
    assert_eq!(split_u16(0xFFFF), (0xFF, 0xFF));
    assert_eq!(join_u16(0xA1, 0x60), 0xA160);
    assert_eq!(join_u16(0x00, 0xFF), 0x00FF);
    assert_eq!(join_u16(0xFF, 0x00), 0xFF00);
}

#[test]
fn checksum_mismatch_reports_both_values() {
    let data = [0xAA, 0xC0, 0xD4, 0x04, 0x3A, 0x0A, 0xA1, 0x60, 0x1E, 0xAB];
    assert_eq!(Message::parse_reply(&data), Err(ParseError::Checksum(0x1D, 0x1E)));
}

#[test]
fn checksum_is_judged_before_anything_else() {
    // unknown command, bad head and tail, and a wrong checksum
    let data = [0x00, 0x42, 0x01, 0x01, 0x01, 0x01, 0x01, 0x01, 0x00, 0x00];
    assert_eq!(Message::parse_reply(&data), Err(ParseError::Checksum(0x06, 0x00)));
}

#[test]
fn right_checksum_alone_is_not_enough() {
    let data = [0u8; RECV_BUF_SIZE];
    assert_eq!(Message::parse_reply(&data), Err(ParseError::CommandID(0x00)));
}

#[test]
fn every_checksum_byte_but_one_is_rejected() {
    let good = reply(0xC5, [0x07, 0x0F, 0x07, 0x0A], 0xA160);
    assert_eq!(good[8], 0x28);
    for byte in 0..=255u8 {
        let mut data = good;
        data[8] = byte;
        let decoded = Message::parse_reply(&data);
        if byte == 0x28 {
            assert!(decoded.is_ok());
        } else {
            assert_eq!(decoded, Err(ParseError::Checksum(0x28, byte)));
        }
    }
}

#[test]
fn unknown_command_is_rejected() {
    let data = reply(0xC1, [0x02, 0x00, 0x00, 0x00], 0xA160);
    assert_eq!(Message::parse_reply(&data), Err(ParseError::CommandID(0xC1)));
    let data = reply(0xB4, [0x02, 0x00, 0x00, 0x00], 0xA160);
    assert_eq!(Message::parse_reply(&data), Err(ParseError::CommandID(0xB4)));
}

#[test]
fn unknown_subcommand_is_rejected() {
    for sub in [0u8, 1, 3, 4, 9, 0xFF] {
        let data = reply(0xC5, [sub, 0x00, 0x00, 0x00], 0xA160);
        assert_eq!(Message::parse_reply(&data), Err(ParseError::SubCommand(sub)));
    }
}

#[test]
fn boolean_fields_hold_zero_or_one() {
    // the query flag of each setting
    for sub in [2u8, 6, 8] {
        let data = reply(0xC5, [sub, 0x02, 0x00, 0x00], 0xA160);
        assert_eq!(Message::parse_reply(&data), Err(ParseError::BooleanField(2)));
    }
    // the reporting mode and the sleep mode
    for sub in [2u8, 6] {
        let data = reply(0xC5, [sub, 0x01, 0x07, 0x00], 0xA160);
        assert_eq!(Message::parse_reply(&data), Err(ParseError::BooleanField(7)));
    }
    // the query flag is judged before the value
    let data = reply(0xC5, [0x02, 0x03, 0x07, 0x00], 0xA160);
    assert_eq!(Message::parse_reply(&data), Err(ParseError::BooleanField(3)));
    let data = reply(0xC5, [0x08, 0x03, 0x1F, 0x00], 0xA160);
    assert_eq!(Message::parse_reply(&data), Err(ParseError::BooleanField(3)));
}

#[test]
fn working_period_ends_at_thirty_minutes() {
    for (minutes, flag) in [(0u8, 0u8), (30, 0), (0, 1), (30, 1)] {
        let data = reply(0xC5, [0x08, flag, minutes, 0x00], 0xA160);
        let msg = Message::parse_reply(&data).unwrap();
        let query = if flag == 0 { QueryMode::Query } else { QueryMode::Update };
        assert_eq!(msg.kind, Kind::WorkingPeriod(WorkingPeriod { query, minutes }));
        assert_eq!(msg.sensor_id, Some(0xA160));
    }
    let data = reply(0xC5, [0x08, 0x01, 31, 0x00], 0xA160);
    assert_eq!(Message::parse_reply(&data), Err(ParseError::TimeField(31)));
    let data = reply(0xC5, [0x08, 0x00, 255, 0x00], 0xA160);
    assert_eq!(Message::parse_reply(&data), Err(ParseError::TimeField(255)));
}

#[test]
fn sleep_command_reply_may_end_in_ff() {
    for mode in [0u8, 1] {
        let mut data = reply(0xC5, [0x06, 0x01, mode, 0x00], 0xA160);
        data[9] = 0xFF;
        let msg = Message::parse_reply(&data).unwrap();
        let sleep = if mode == 0 { SleepMode::Sleep } else { SleepMode::Work };
        assert_eq!(msg.kind, Kind::Sleep(Sleep { query: QueryMode::Update, sleep }));
        assert_eq!(msg.sensor_id, Some(0xA160));
    }
}

#[test]
fn sleep_query_reply_must_end_in_ab() {
    for mode in [0u8, 1] {
        let mut data = reply(0xC5, [0x06, 0x00, mode, 0x00], 0xA160);
        data[9] = 0xFF;
        assert_eq!(Message::parse_reply(&data), Err(ParseError::HeadTail));
    }
}

#[test]
fn no_other_reply_may_end_in_ff() {
    let frames = [
        reply(0xC0, [0xD4, 0x04, 0x3A, 0x0A], 0xA160),
        reply(0xC5, [0x02, 0x01, 0x01, 0x00], 0xA160),
        reply(0xC5, [0x05, 0x00, 0x00, 0x00], 0xA001),
        reply(0xC5, [0x08, 0x01, 0x05, 0x00], 0xA160),
        reply(0xC5, [0x07, 0x0F, 0x07, 0x0A], 0xA160),
    ];
    for frame in frames {
        assert!(Message::parse_reply(&frame).is_ok());
        let mut data = frame;
        data[9] = 0xFF;
        assert_eq!(Message::parse_reply(&data), Err(ParseError::HeadTail));
    }
}

#[test]
fn head_and_tail_are_checked() {
    let good = reply(0xC5, [0x06, 0x01, 0x01, 0x00], 0xA160);
    assert!(Message::parse_reply(&good).is_ok());

    let mut data = good;
    data[0] = 0xAB;
    assert_eq!(Message::parse_reply(&data), Err(ParseError::HeadTail));

    // the tail of the sleep confirmation excuses no wrong head
    let mut data = good;
    data[0] = 0x00;
    data[9] = 0xFF;
    assert_eq!(Message::parse_reply(&data), Err(ParseError::HeadTail));

    let mut data = good;
    data[9] = 0xAA;
    assert_eq!(Message::parse_reply(&data), Err(ParseError::HeadTail));

    let mut data = good;
    data[9] = 0xFE;
    assert_eq!(Message::parse_reply(&data), Err(ParseError::HeadTail));
}

#[test]
fn fields_are_judged_before_head_and_tail() {
    let mut data = reply(0xC5, [0x08, 0x01, 31, 0x00], 0xA160);
    data[0] = 0x00;
    data[9] = 0x00;
    assert_eq!(Message::parse_reply(&data), Err(ParseError::TimeField(31)));
}

#[test]
fn firmware_reply_decodes_with_its_text() {
    let data = [0xAA, 0xC5, 0x07, 0x0F, 0x07, 0x0A, 0xA1, 0x60, 0x28, 0xAB];
    let msg = Message::parse_reply(&data).unwrap();
    assert_eq!(msg.sensor_id, Some(0xA160));
    match msg.kind {
        Kind::FWVersion(Some(version)) => {
            assert_eq!(version, FirmwareVersion { year: 15, month: 7, day: 10 });
            assert_eq!(version.to_string(), "2015.07.10");
        },
        other => panic!("not a firmware version: {:?}", other),
    }
}

#[test]
fn firmware_version_text() {
    let text = |year, month, day| FirmwareVersion { year, month, day }.to_string();
    assert_eq!(text(0, 0, 0), "2000.00.00");
    assert_eq!(text(18, 11, 16), "2018.11.16");
    assert_eq!(text(99, 12, 31), "2099.12.31");
    assert_eq!(text(100, 1, 9), "2100.01.09");
    assert_eq!(text(255, 10, 100), "2255.10.100");
    assert_eq!(text(255, 255, 255), "2255.255.255");
}

#[test]
fn measurement_is_read_low_byte_first() {
    let data = [0xAA, 0xC0, 0xD4, 0x04, 0x3A, 0x0A, 0xA1, 0x60, 0x1D, 0xAB];
    let msg = Message::parse_reply(&data).unwrap();
    assert_eq!(msg.kind, Kind::Query(Some(Measurement { pm25: 1236, pm10: 2618 })));
    match msg.kind {
        Kind::Query(Some(m)) => {
            assert_eq!(m.pm25(), 1236);
            assert_eq!(m.pm10(), 2618);
        },
        other => panic!("not a measurement: {:?}", other),
    }
    assert_eq!(
        Measurement::from_bytes(&reply(0xC0, [0xFF, 0xFF, 0x00, 0x01], 1)),
        Measurement { pm25: 0xFFFF, pm10: 0x0100 }
    );
}

#[test]
fn sensor_id_is_read_high_byte_first() {
    let msg = Message::parse_reply(&reply(0xC0, [0, 0, 0, 0], 0x0102)).unwrap();
    assert_eq!(msg.sensor_id, Some(0x0102));
    let msg = Message::parse_reply(&reply(0xC5, [0x05, 0, 0, 0], 0xFFFE)).unwrap();
    assert_eq!(msg.sensor_id, Some(0xFFFE));
    assert_eq!(msg.kind, Kind::SetDeviceID(NewDeviceID(0xFFFE)));
}

#[test]
fn broadcast_query_for_a_measurement() {
    let mut expected = [0u8; SEND_BUF_SIZE];
    expected[0] = 0xAA;
    expected[1] = 0xB4;
    expected[2] = 0x04;
    expected[15] = 0xFF;
    expected[16] = 0xFF;
    expected[17] = 0x02;
    expected[18] = 0xAB;
    assert_eq!(Message::new(Kind::Query(None), None).create_query(), expected);
    // a value in the message changes nothing in the query
    let with_value = Kind::Query(Some(Measurement { pm25: 1, pm10: 2 }));
    assert_eq!(Message::new(with_value, None).create_query(), expected);
}

#[test]
fn query_checksum_covers_subcommand_payload_and_target() {
    let kinds = [
        Kind::ReportingMode(Reporting::new_set(ReportingMode::Active)),
        Kind::Query(None),
        Kind::SetDeviceID(NewDeviceID(0x1234)),
        Kind::Sleep(Sleep::new_set(SleepMode::Work)),
        Kind::WorkingPeriod(WorkingPeriod::new_set(30)),
        Kind::FWVersion(None),
    ];
    let subcommands = [2u8, 4, 5, 6, 8, 7];
    for (kind, sub) in kinds.iter().zip(subcommands) {
        for target in [None, Some(0x0000), Some(0xA160), Some(0xFFFF)] {
            let frame = Message::new(*kind, target).create_query();
            assert_eq!(frame[0], 0xAA);
            assert_eq!(frame[1], 0xB4);
            assert_eq!(frame[2], sub);
            let id = target.unwrap_or(0xFFFF);
            assert_eq!(frame[15], (id >> 8) as u8);
            assert_eq!(frame[16], (id & 0xFF) as u8);
            assert_eq!(frame[17], sum_bytes(&frame, 2, 17));
            assert_eq!(frame[18], 0xAB);
        }
    }
}

#[test]
fn populate_query_leaves_the_other_bytes() {
    let mut data = [0x11u8; SEND_BUF_SIZE];
    Kind::SetDeviceID(NewDeviceID(0xA001)).populate_query(&mut data);
    let mut expected = [0x11u8; SEND_BUF_SIZE];
    expected[1] = 0xB4;
    expected[2] = 0x05;
    expected[13] = 0xA0;
    expected[14] = 0x01;
    assert_eq!(data, expected);

    let mut data = [0x11u8; SEND_BUF_SIZE];
    Kind::WorkingPeriod(WorkingPeriod::new_set(7)).populate_query(&mut data);
    let mut expected = [0x11u8; SEND_BUF_SIZE];
    expected[1] = 0xB4;
    expected[2] = 0x08;
    expected[3] = 0x01;
    expected[4] = 0x07;
    assert_eq!(data, expected);

    let mut data = [0x11u8; SEND_BUF_SIZE];
    Kind::FWVersion(None).populate_query(&mut data);
    let mut expected = [0x11u8; SEND_BUF_SIZE];
    expected[1] = 0xB4;
    expected[2] = 0x07;
    assert_eq!(data, expected);
}

#[test]
fn new_device_id_with_an_ff_byte_is_encoded() {
    let frame = Message::new(Kind::SetDeviceID(NewDeviceID(0xFF01)), Some(0xA160)).create_query();
    assert_eq!(frame[13], 0xFF);
    assert_eq!(frame[14], 0x01);
    assert_eq!(frame[17], sum_bytes(&frame, 2, 17));
}

#[test]
fn echoed_setting_decodes_to_what_was_sent() {
    let kinds = [
        Kind::ReportingMode(Reporting::new_query()),
        Kind::ReportingMode(Reporting::new_set(ReportingMode::Active)),
        Kind::ReportingMode(Reporting::new_set(ReportingMode::Query)),
        Kind::Sleep(Sleep::new_query()),
        Kind::Sleep(Sleep::new_set(SleepMode::Sleep)),
        Kind::Sleep(Sleep::new_set(SleepMode::Work)),
        Kind::WorkingPeriod(WorkingPeriod::new_query()),
        Kind::WorkingPeriod(WorkingPeriod::new_set(0)),
        Kind::WorkingPeriod(WorkingPeriod::new_set(30)),
    ];
    for kind in kinds {
        for target in [None, Some(0xA160)] {
            let query = Message::new(kind, target).create_query();
            let echo = reply(0xC5, [query[2], query[3], query[4], query[5]], 0xA160);
            assert_eq!(
                Message::parse_reply(&echo),
                Ok(Message { kind, sensor_id: Some(0xA160) })
            );
        }
    }
}

#[test]
fn echoed_period_of_thirty_one_minutes_is_rejected() {
    let query = Message::new(Kind::WorkingPeriod(WorkingPeriod::new_set(31)), None).create_query();
    let echo = reply(0xC5, [query[2], query[3], query[4], query[5]], 0xA160);
    assert_eq!(Message::parse_reply(&echo), Err(ParseError::TimeField(31)));
}

#[test]
fn field_bytes_round_trip() {
    for mode in [QueryMode::Query, QueryMode::Update] {
        assert_eq!(QueryMode::try_from(mode.byte()), Ok(mode));
    }
    for mode in [ReportingMode::Active, ReportingMode::Query] {
        assert_eq!(ReportingMode::try_from(mode.byte()), Ok(mode));
    }
    for mode in [SleepMode::Sleep, SleepMode::Work] {
        assert_eq!(SleepMode::try_from(mode.byte()), Ok(mode));
    }
    assert_eq!(QueryMode::Query.byte(), 0);
    assert_eq!(QueryMode::Update.byte(), 1);
    assert_eq!(ReportingMode::Active.byte(), 0);
    assert_eq!(ReportingMode::Query.byte(), 1);
    assert_eq!(SleepMode::Sleep.byte(), 0);
    assert_eq!(SleepMode::Work.byte(), 1);
    assert_eq!(QueryMode::try_from(2), Err(ParseError::BooleanField(2)));
    assert_eq!(ReportingMode::try_from(255), Err(ParseError::BooleanField(255)));
    assert_eq!(SleepMode::try_from(9), Err(ParseError::BooleanField(9)));
}

#[test]
fn accessors_return_the_fields() {
    assert_eq!(Reporting::new_set(ReportingMode::Query).mode(), ReportingMode::Query);
    assert_eq!(Reporting::new_query().mode(), ReportingMode::Active);
    assert_eq!(Sleep::new_set(SleepMode::Work).sleep_mode(), SleepMode::Work);
    assert_eq!(Sleep::new_query().sleep_mode(), SleepMode::Sleep);
    assert_eq!(WorkingPeriod::new_set(17).period(), 17);
    assert_eq!(WorkingPeriod::new_query().period(), 0);
    assert_eq!(WorkingPeriod::new_set(200).period(), 200);
    assert!(Kind::Sleep(Sleep::new_set(SleepMode::Sleep)).accepts_tail(0xFF));
    assert!(Kind::Sleep(Sleep::new_set(SleepMode::Sleep)).accepts_tail(0xAB));
    assert!(!Kind::Sleep(Sleep::new_query()).accepts_tail(0xFF));
    assert!(!Kind::FWVersion(None).accepts_tail(0xFF));
    assert!(Kind::FWVersion(None).accepts_tail(0xAB));
}

#[test]
fn every_kind_of_reply_decodes_to_its_message() {
    let id = 0x12EF;
    let cases = [
        (
            reply(0xC0, [0x39, 0x30, 0x01, 0x00], id),
            Kind::Query(Some(Measurement { pm25: 12345, pm10: 1 })),
        ),
        (
            reply(0xC5, [0x02, 0x00, 0x01, 0x00], id),
            Kind::ReportingMode(Reporting {
                query: QueryMode::Query,
                reporting: ReportingMode::Query,
            }),
        ),
        (reply(0xC5, [0x05, 0x00, 0x00, 0x00], id), Kind::SetDeviceID(NewDeviceID(id))),
        (reply(0xC5, [0x06, 0x01, 0x01, 0x00], id), Kind::Sleep(Sleep::new_set(SleepMode::Work))),
        (
            reply(0xC5, [0x08, 0x01, 0x1E, 0x00], id),
            Kind::WorkingPeriod(WorkingPeriod::new_set(30)),
        ),
        (
            reply(0xC5, [0x07, 0x12, 0x0B, 0x10], id),
            Kind::FWVersion(Some(FirmwareVersion { year: 18, month: 11, day: 16 })),
        ),
    ];
    for (frame, kind) in cases {
        assert_eq!(Message::parse_reply(&frame), Ok(Message { kind, sensor_id: Some(id) }));
        assert_eq!(Kind::parse(&frame), Ok(kind));
    }
}
