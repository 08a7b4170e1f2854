//! Frames from the sensor's control protocol document, encoded and decoded.
use sds011::message::{
    FirmwareVersion, Kind, Measurement, Message, NewDeviceID, QueryMode, Reporting, ReportingMode,
    Sleep, SleepMode, WorkingPeriod, RECV_BUF_SIZE, SEND_BUF_SIZE,
};

// the reporting mode (active / query): page 4 of the control protocol
#[test]
fn reporting_mode_send_query() {
    const EXPECTED: [u8; SEND_BUF_SIZE] = [
        0xAA, 0xB4, 0x02, 0x00, 0x00, 0x00, 0x00, 0x00, 0x00, 0x00, 0x00, 0x00, 0x00, 0x00,
        0x00, 0xFF, 0xFF, 0x00, 0xAB,
    ];
    let query = Reporting::new_query();
    let msg = Message::new(Kind::ReportingMode(query), None);
    assert_eq!(msg.create_query(), EXPECTED);
}

#[test]
fn reporting_mode_receive_active() {
    const MSG: [u8; RECV_BUF_SIZE] =
        [0xAA, 0xC5, 0x02, 0x00, 0x00, 0x00, 0xA1, 0x60, 0x03, 0xAB];
    let msg = Message::parse_reply(&MSG).unwrap();

    assert!(matches!(
        msg.kind,
        Kind::ReportingMode(Reporting {
            query: QueryMode::Query,
            reporting: ReportingMode::Active
        })
    ));
    assert_eq!(msg.sensor_id, Some(0xA160));
}

#[test]
fn reporting_mode_receive_query() {
    const MSG: [u8; RECV_BUF_SIZE] =
        [0xAA, 0xC5, 0x02, 0x00, 0x01, 0x00, 0xA1, 0x60, 0x04, 0xAB];
    let msg = Message::parse_reply(&MSG).unwrap();

    assert!(matches!(
        msg.kind,
        Kind::ReportingMode(Reporting {
            query: QueryMode::Query,
            reporting: ReportingMode::Query
        })
    ));
    assert_eq!(msg.sensor_id, Some(0xA160));
}

#[test]
fn reporting_mode_send_command() {
    const EXPECTED: [u8; SEND_BUF_SIZE] = [
        0xAA, 0xB4, 0x02, 0x01, 0x01, 0x00, 0x00, 0x00, 0x00, 0x00, 0x00, 0x00, 0x00, 0x00,
        0x00, 0xA1, 0x60, 0x05, 0xAB,
    ];
    let query = Reporting::new_set(ReportingMode::Query);
    let msg = Message::new(Kind::ReportingMode(query), Some(0xA160));
    assert_eq!(msg.create_query(), EXPECTED);
}

#[test]
fn reporting_mode_receive_set_query() {
    const MSG: [u8; RECV_BUF_SIZE] =
        [0xAA, 0xC5, 0x02, 0x01, 0x01, 0x00, 0xA1, 0x60, 0x05, 0xAB];
    let msg = Message::parse_reply(&MSG).unwrap();

    assert!(matches!(
        msg.kind,
        Kind::ReportingMode(Reporting {
            query: QueryMode::Update,
            reporting: ReportingMode::Query
        })
    ));
    assert_eq!(msg.sensor_id, Some(0xA160));
}

// querying data: pages 5 and 6. The replies are equal and only tested once.
#[test]
fn data_send_command_broadcast() {
    const EXPECTED: [u8; SEND_BUF_SIZE] = [
        0xAA, 0xB4, 0x04, 0x00, 0x00, 0x00, 0x00, 0x00, 0x00, 0x00, 0x00, 0x00, 0x00, 0x00,
        0x00, 0xFF, 0xFF, 0x02, 0xAB,
    ];

    let msg = Message::new(Kind::Query(None), None);
    assert_eq!(msg.create_query(), EXPECTED);
}

#[test]
fn data_send_command_target() {
    const EXPECTED: [u8; SEND_BUF_SIZE] = [
        0xAA, 0xB4, 0x04, 0x00, 0x00, 0x00, 0x00, 0x00, 0x00, 0x00, 0x00, 0x00, 0x00, 0x00,
        0x00, 0xA1, 0x60, 0x05, 0xAB,
    ];

    let msg = Message::new(Kind::Query(None), Some(0xA160));
    assert_eq!(msg.create_query(), EXPECTED);
}

#[test]
fn data_receive() {
    const MSG: [u8; RECV_BUF_SIZE] =
        [0xAA, 0xC0, 0xD4, 0x04, 0x3A, 0x0A, 0xA1, 0x60, 0x1D, 0xAB];
    let msg = Message::parse_reply(&MSG).unwrap();

    assert!(matches!(
        msg.kind,
        Kind::Query(Some(Measurement {
            pm25: 1236,
            pm10: 2618
        }))
    ));
    assert_eq!(msg.sensor_id, Some(0xA160));
}

// setting the device id: page 7
#[test]
fn device_id_send_command() {
    const EXPECTED: [u8; SEND_BUF_SIZE] = [
        0xAA, 0xB4, 0x05, 0x00, 0x00, 0x00, 0x00, 0x00, 0x00, 0x00, 0x00, 0x00, 0x00, 0xA0,
        0x01, 0xA1, 0x60, 0xA7, 0xAB,
    ];
    let query = NewDeviceID(0xA001);
    let msg = Message::new(Kind::SetDeviceID(query), Some(0xA160));
    assert_eq!(msg.create_query(), EXPECTED);
}

#[test]
fn device_id_receive_confirm() {
    const MSG: [u8; RECV_BUF_SIZE] =
        [0xAA, 0xC5, 0x05, 0x00, 0x00, 0x00, 0xA0, 0x01, 0xA6, 0xAB];
    let msg = Message::parse_reply(&MSG).unwrap();

    assert!(matches!(msg.kind, Kind::SetDeviceID(NewDeviceID(0xA001))));
    assert_eq!(msg.sensor_id, Some(0xA001));
}

// wake and sleep: page 8
#[test]
fn sleep_send_command() {
    const EXPECTED: [u8; SEND_BUF_SIZE] = [
        0xAA, 0xB4, 0x06, 0x01, 0x00, 0x00, 0x00, 0x00, 0x00, 0x00, 0x00, 0x00, 0x00, 0x00,
        0x00, 0xA1, 0x60, 0x08, 0xAB,
    ];
    let query = Sleep::new_set(SleepMode::Sleep);
    let msg = Message::new(Kind::Sleep(query), Some(0xA160));
    assert_eq!(msg.create_query(), EXPECTED);
}

#[test]
fn sleep_receive_confirm() {
    const MSG: [u8; RECV_BUF_SIZE] =
        [0xAA, 0xC5, 0x06, 0x01, 0x00, 0x00, 0xA1, 0x60, 0x08, 0xAB];
    let msg = Message::parse_reply(&MSG).unwrap();

    assert!(matches!(
        msg.kind,
        Kind::Sleep(Sleep {
            query: QueryMode::Update,
            sleep: SleepMode::Sleep
        })
    ));
    assert_eq!(msg.sensor_id, Some(0xA160));
}

#[test]
fn wake_send_command() {
    const EXPECTED: [u8; SEND_BUF_SIZE] = [
        0xAA, 0xB4, 0x06, 0x01, 0x01, 0x00, 0x00, 0x00, 0x00, 0x00, 0x00, 0x00, 0x00, 0x00,
        0x00, 0xA1, 0x60, 0x09, 0xAB,
    ];
    let query = Sleep::new_set(SleepMode::Work);
    let msg = Message::new(Kind::Sleep(query), Some(0xA160));
    assert_eq!(msg.create_query(), EXPECTED);
}

#[test]
fn wake_receive_confirm() {
    const MSG: [u8; RECV_BUF_SIZE] =
        [0xAA, 0xC5, 0x06, 0x01, 0x01, 0x00, 0xA1, 0x60, 0x09, 0xAB];
    let msg = Message::parse_reply(&MSG).unwrap();

    assert!(matches!(
        msg.kind,
        Kind::Sleep(Sleep {
            query: QueryMode::Update,
            sleep: SleepMode::Work
        })
    ));
    assert_eq!(msg.sensor_id, Some(0xA160));
}

#[test]
fn sleep_wake_send_query() {
    const EXPECTED: [u8; SEND_BUF_SIZE] = [
        0xAA, 0xB4, 0x06, 0x00, 0x00, 0x00, 0x00, 0x00, 0x00, 0x00, 0x00, 0x00, 0x00, 0x00,
        0x00, 0xA1, 0x60, 0x07, 0xAB,
    ];
    let query = Sleep::new_query();
    let msg = Message::new(Kind::Sleep(query), Some(0xA160));
    assert_eq!(msg.create_query(), EXPECTED);
}

#[test]
fn sleep_wake_receive_wake() {
    const MSG: [u8; RECV_BUF_SIZE] =
        [0xAA, 0xC5, 0x06, 0x00, 0x01, 0x00, 0xA1, 0x60, 0x08, 0xAB];
    let msg = Message::parse_reply(&MSG).unwrap();

    assert!(matches!(
        msg.kind,
        Kind::Sleep(Sleep {
            query: QueryMode::Query,
            sleep: SleepMode::Work
        })
    ));
    assert_eq!(msg.sensor_id, Some(0xA160));
}

#[test]
fn sleep_wake_receive_sleep() {
    const MSG: [u8; RECV_BUF_SIZE] =
        [0xAA, 0xC5, 0x06, 0x00, 0x00, 0x00, 0xA1, 0x60, 0x07, 0xAB];
    let msg = Message::parse_reply(&MSG).unwrap();

    assert!(matches!(
        msg.kind,
        Kind::Sleep(Sleep {
            query: QueryMode::Query,
            sleep: SleepMode::Sleep
        })
    ));
    assert_eq!(msg.sensor_id, Some(0xA160));
}

#[test]
fn working_period_send_command_1() {
    const EXPECTED: [u8; SEND_BUF_SIZE] = [
        0xAA, 0xB4, 0x08, 0x01, 0x01, 0x00, 0x00, 0x00, 0x00, 0x00, 0x00, 0x00, 0x00, 0x00,
        0x00, 0xA1, 0x60, 0x0B, 0xAB,
    ];
    let query = WorkingPeriod::new_set(1);
    let msg = Message::new(Kind::WorkingPeriod(query), Some(0xA160));
    assert_eq!(msg.create_query(), EXPECTED);
}

// getting and setting the working period: pages 9 and 10
#[test]
fn working_period_receive_confirm_1() {
    const MSG: [u8; RECV_BUF_SIZE] =
        [0xAA, 0xC5, 0x08, 0x01, 0x01, 0x00, 0xA1, 0x60, 0x0B, 0xAB];
    let msg = Message::parse_reply(&MSG).unwrap();

    assert!(matches!(
        msg.kind,
        Kind::WorkingPeriod(WorkingPeriod {
            query: QueryMode::Update,
            minutes: 1
        })
    ));
    assert_eq!(msg.sensor_id, Some(0xA160));
}

#[test]
fn working_period_send_command_0() {
    const EXPECTED: [u8; SEND_BUF_SIZE] = [
        0xAA, 0xB4, 0x08, 0x01, 0x00, 0x00, 0x00, 0x00, 0x00, 0x00, 0x00, 0x00, 0x00, 0x00,
        0x00, 0xA1, 0x60, 0x0A, 0xAB,
    ];
    let query = WorkingPeriod::new_set(0);
    let msg = Message::new(Kind::WorkingPeriod(query), Some(0xA160));
    assert_eq!(msg.create_query(), EXPECTED);
}

#[test]
fn working_period_receive_confirm_0() {
    const MSG: [u8; RECV_BUF_SIZE] =
        [0xAA, 0xC5, 0x08, 0x01, 0x00, 0x00, 0xA1, 0x60, 0x0A, 0xAB];
    let msg = Message::parse_reply(&MSG).unwrap();

    assert!(matches!(
        msg.kind,
        Kind::WorkingPeriod(WorkingPeriod {
            query: QueryMode::Update,
            minutes: 0
        })
    ));
    assert_eq!(msg.sensor_id, Some(0xA160));
}

#[test]
fn working_period_send_query() {
    const EXPECTED: [u8; SEND_BUF_SIZE] = [
        0xAA, 0xB4, 0x08, 0x00, 0x00, 0x00, 0x00, 0x00, 0x00, 0x00, 0x00, 0x00, 0x00, 0x00,
        0x00, 0xA1, 0x60, 0x09, 0xAB,
    ];
    let query = WorkingPeriod::new_query();
    let msg = Message::new(Kind::WorkingPeriod(query), Some(0xA160));
    assert_eq!(msg.create_query(), EXPECTED);
}

#[test]
fn working_period_receive() {
    const MSG: [u8; RECV_BUF_SIZE] =
        [0xAA, 0xC5, 0x08, 0x00, 0x02, 0x00, 0xA1, 0x60, 0x0B, 0xAB];
    let msg = Message::parse_reply(&MSG).unwrap();

    assert!(matches!(
        msg.kind,
        Kind::WorkingPeriod(WorkingPeriod {
            query: QueryMode::Query,
            minutes: 2
        })
    ));
    assert_eq!(msg.sensor_id, Some(0xA160));
}

// reading the firmware version: page 11
#[test]
fn firmware_version_send_query() {
    const EXPECTED: [u8; SEND_BUF_SIZE] = [
        0xAA, 0xB4, 0x07, 0x00, 0x00, 0x00, 0x00, 0x00, 0x00, 0x00, 0x00, 0x00, 0x00, 0x00,
        0x00, 0xA1, 0x60, 0x08, 0xAB,
    ];

    let msg = Message::new(Kind::FWVersion(None), Some(0xA160));
    assert_eq!(msg.create_query(), EXPECTED);
}

#[test]
fn firmware_version_receive() {
    const MSG: [u8; RECV_BUF_SIZE] =
        [0xAA, 0xC5, 0x07, 0x0F, 0x07, 0x0A, 0xA1, 0x60, 0x28, 0xAB];
    let msg = Message::parse_reply(&MSG).unwrap();

    assert!(matches!(
        msg.kind,
        Kind::FWVersion(Some(FirmwareVersion {
            year: 15,
            month: 7,
            day: 10
        }))
    ));
    assert_eq!(msg.sensor_id, Some(0xA160));
}
