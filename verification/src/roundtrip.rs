//! What holds between frames and the messages they carry: decoding undoes
//! encoding, and the checksum byte alone decides whether a frame is read at
//! all.
use crate::message::{
    be16, byte_sum, checksum, high_byte, le16, low_byte, Kind, Message, ParseError, QueryMode,
    WorkingPeriod, CMD_DATA, CMD_QUERY, CMD_REPLY, HEAD, MAX_PERIOD, RECV_BUF_SIZE, SEND_BUF_SIZE,
    SLEEP_TAIL, SUB_DEVICE_ID, SUB_FIRMWARE, SUB_PERIOD, SUB_REPORTING, SUB_SLEEP, TAIL,
};
use vstd::prelude::*;

verus! {

/// The sum of six bytes, written out.
pub proof fn lemma_byte_sum_6(s: Seq<u8>)
    requires
        s.len() == 6,
    ensures
        byte_sum(s) == s[0] + s[1] + s[2] + s[3] + s[4] + s[5],
{
    let s5 = s.drop_last();
    let s4 = s5.drop_last();
    let s3 = s4.drop_last();
    let s2 = s3.drop_last();
    let s1 = s2.drop_last();
    assert(byte_sum(s1.drop_last()) == 0);
    assert(byte_sum(s1) == s[0]);
    assert(byte_sum(s2) == s[0] + s[1]);
    assert(byte_sum(s3) == s[0] + s[1] + s[2]);
    assert(byte_sum(s4) == s[0] + s[1] + s[2] + s[3]);
    assert(byte_sum(s5) == s[0] + s[1] + s[2] + s[3] + s[4]);
}

/// The command byte of the reply that says `kind`.
pub open spec fn reply_command(kind: Kind) -> u8 {
    if kind is Query {
        CMD_DATA
    } else {
        CMD_REPLY
    }
}

/// Bytes 2 to 5 of the reply that says `kind`.
pub open spec fn reply_payload(kind: Kind) -> Seq<u8> {
    match kind {
        Kind::Query(m) => seq![
            low_byte(m->0.pm25),
            high_byte(m->0.pm25),
            low_byte(m->0.pm10),
            high_byte(m->0.pm10),
        ],
        Kind::ReportingMode(r) => seq![
            SUB_REPORTING,
            r.query.spec_byte(),
            r.reporting.spec_byte(),
            0,
        ],
        Kind::SetDeviceID(_) => seq![SUB_DEVICE_ID, 0, 0, 0],
        Kind::Sleep(s) => seq![SUB_SLEEP, s.query.spec_byte(), s.sleep.spec_byte(), 0],
        Kind::WorkingPeriod(w) => seq![SUB_PERIOD, w.query.spec_byte(), w.minutes, 0],
        Kind::FWVersion(v) => seq![SUB_FIRMWARE, v->0.year, v->0.month, v->0.day],
    }
}

/// The reply frame with the given command byte, data bytes 2 to 5 and
/// sender, with its checksum and the regular head and tail.
pub open spec fn frame_reply(command: u8, payload: Seq<u8>, id: u16) -> Seq<u8> {
    let body = payload + seq![high_byte(id), low_byte(id)];
    seq![HEAD, command] + body + seq![checksum(body), TAIL]
}

/// The reply frame that says `msg`.
pub open spec fn reply_frame(msg: Message) -> Seq<u8> {
    frame_reply(reply_command(msg.kind), reply_payload(msg.kind), msg.sensor_id->0)
}

/// The reply of a sensor with the given id that repeats the subcommand and
/// the first three payload bytes of `query` to confirm it.
pub open spec fn echo(query: Seq<u8>, id: u16) -> Seq<u8> {
    frame_reply(CMD_REPLY, query.subrange(2, 6), id)
}

/// A framed reply has ten bytes, and its bytes 2 to 7 are the payload and
/// the sender's id.
pub proof fn lemma_frame_reply_layout(command: u8, payload: Seq<u8>, id: u16)
    requires
        payload.len() == 4,
    ensures
        frame_reply(command, payload, id).len() == RECV_BUF_SIZE,
        frame_reply(command, payload, id) == seq![
            HEAD,
            command,
            payload[0],
            payload[1],
            payload[2],
            payload[3],
            high_byte(id),
            low_byte(id),
            checksum(payload + seq![high_byte(id), low_byte(id)]),
            TAIL,
        ],
        frame_reply(command, payload, id).subrange(2, 8) == payload + seq![
            high_byte(id),
            low_byte(id),
        ],
{
    let body = payload + seq![high_byte(id), low_byte(id)];
    let frame = frame_reply(command, payload, id);
    assert(frame =~= seq![
        HEAD,
        command,
        payload[0],
        payload[1],
        payload[2],
        payload[3],
        high_byte(id),
        low_byte(id),
        checksum(body),
        TAIL,
    ]);
    assert(frame.subrange(2, 8) =~= body);
}

/// Decoding undoes encoding: the reply frame that says `msg` decodes to `msg`.
pub proof fn lemma_reply_roundtrip(msg: Message)
    requires
        msg.is_reply(),
    ensures
        reply_frame(msg).len() == RECV_BUF_SIZE,
        Message::spec_parse_reply(reply_frame(msg)) == Ok::<Message, ParseError>(msg),
{
    let id = msg.sensor_id->0;
    lemma_frame_reply_layout(reply_command(msg.kind), reply_payload(msg.kind), id);
    assert(be16(high_byte(id), low_byte(id)) == id);
    match msg.kind {
        Kind::Query(m) => {
            let m = m->0;
            assert(le16(low_byte(m.pm25), high_byte(m.pm25)) == m.pm25);
            assert(le16(low_byte(m.pm10), high_byte(m.pm10)) == m.pm10);
        },
        _ => {},
    }
}

/// What decodes is a reply: a decoded message names its sender, carries its
/// value, and holds a working period of at most thirty minutes.
pub proof fn lemma_decoded_is_reply(data: Seq<u8>)
    requires
        data.len() == RECV_BUF_SIZE,
    ensures
        Message::spec_parse_reply(data) matches Ok(msg) ==> msg.is_reply(),
{
}

/// Decoding a frame and encoding the result again gives a frame that
/// decodes to the same message.
pub proof fn lemma_decode_is_stable(data: Seq<u8>)
    requires
        data.len() == RECV_BUF_SIZE,
    ensures
        Message::spec_parse_reply(data) matches Ok(msg) ==> Message::spec_parse_reply(
            reply_frame(msg),
        ) == Ok::<Message, ParseError>(msg),
{
    lemma_decoded_is_reply(data);
    if let Ok(msg) = Message::spec_parse_reply(data) {
        lemma_reply_roundtrip(msg);
    }
}

/// The checksum byte decides first: a frame is rejected for its checksum
/// exactly if the sum of bytes 2 to 7, wrapping at 256, differs from byte 8,
/// and the error then holds the sum and byte 8. Only a frame whose checksum
/// is right is decoded.
pub proof fn lemma_checksum_decides(data: Seq<u8>)
    requires
        data.len() == RECV_BUF_SIZE,
    ensures
        checksum(data.subrange(2, 8)) == (data[2] + data[3] + data[4] + data[5] + data[6]
            + data[7]) % 256,
        checksum(data.subrange(2, 8)) != data[8] <==> Message::spec_parse_reply(data)
            == Err::<Message, ParseError>(
            ParseError::Checksum(checksum(data.subrange(2, 8)), data[8]),
        ),
        Message::spec_parse_reply(data) matches Err(ParseError::Checksum(sum, expected)) ==> sum
            != expected,
        Message::spec_parse_reply(data) is Ok ==> checksum(data.subrange(2, 8)) == data[8],
{
    lemma_byte_sum_6(data.subrange(2, 8));
}

/// Among the frames that say something, the checksum byte alone decides:
/// with any other byte in the place of the checksum, the reply frame of a
/// message is rejected for its checksum, and with the right one it decodes.
pub proof fn lemma_reply_checksum(msg: Message, byte: u8)
    requires
        msg.is_reply(),
    ensures
        Message::spec_parse_reply(reply_frame(msg).update(8, byte)) is Ok <==> byte == reply_frame(
            msg,
        )[8],
        byte != reply_frame(msg)[8] ==> Message::spec_parse_reply(reply_frame(msg).update(8, byte))
            == Err::<Message, ParseError>(ParseError::Checksum(reply_frame(msg)[8], byte)),
{
    let frame = reply_frame(msg);
    lemma_reply_roundtrip(msg);
    lemma_frame_reply_layout(
        reply_command(msg.kind),
        reply_payload(msg.kind),
        msg.sensor_id->0,
    );
    assert(frame.update(8, byte).subrange(2, 8) =~= frame.subrange(2, 8));
    if byte == frame[8] {
        assert(frame.update(8, byte) =~= frame);
    }
}

/// Head and tail are judged last, and strictly: the reply frame of a
/// message with other bytes in their places decodes exactly if the head is
/// `0xAA` and the tail is `0xAB`, or `0xFF` where the message confirms a
/// sleep or wake command. Every other frame is rejected for its head or tail.
pub proof fn lemma_head_and_tail(msg: Message, head: u8, tail: u8)
    requires
        msg.is_reply(),
    ensures
        Message::spec_parse_reply(reply_frame(msg).update(0, head).update(9, tail)) == if head
            == HEAD && (tail == TAIL || (tail == SLEEP_TAIL && msg.kind.is_sleep_command())) {
            Ok::<Message, ParseError>(msg)
        } else {
            Err::<Message, ParseError>(ParseError::HeadTail)
        },
{
    let frame = reply_frame(msg);
    let other = frame.update(0, head).update(9, tail);
    lemma_reply_roundtrip(msg);
    lemma_frame_reply_layout(
        reply_command(msg.kind),
        reply_payload(msg.kind),
        msg.sensor_id->0,
    );
    assert(other.subrange(2, 8) =~= frame.subrange(2, 8));
    assert(Kind::spec_parse(other) == Kind::spec_parse(frame));
}

/// A working period of at most thirty minutes decodes, a longer one is
/// rejected for its time field.
pub proof fn lemma_period_bound(query: QueryMode, minutes: u8, id: u16)
    ensures
        Message::spec_parse_reply(
            frame_reply(CMD_REPLY, seq![SUB_PERIOD, query.spec_byte(), minutes, 0], id),
        ) == if minutes <= MAX_PERIOD {
            Ok::<Message, ParseError>(
                Message {
                    kind: Kind::WorkingPeriod(WorkingPeriod { query, minutes }),
                    sensor_id: Some(id),
                },
            )
        } else {
            Err::<Message, ParseError>(ParseError::TimeField(minutes))
        },
{
    lemma_frame_reply_layout(CMD_REPLY, seq![SUB_PERIOD, query.spec_byte(), minutes, 0], id);
    assert(be16(high_byte(id), low_byte(id)) == id);
}

/// A query is consistent by construction: it has nineteen bytes, head and
/// tail, the query command, the subcommand of its message and its target,
/// and its checksum byte is the checksum of the bytes before it.
pub proof fn lemma_query_layout(msg: Message)
    ensures
        msg.spec_create_query().len() == SEND_BUF_SIZE,
        msg.spec_create_query()[0] == HEAD,
        msg.spec_create_query()[1] == CMD_QUERY,
        msg.spec_create_query()[2] == msg.kind.subcommand(),
        be16(msg.spec_create_query()[15], msg.spec_create_query()[16]) == msg.target(),
        msg.spec_create_query()[17] == checksum(msg.spec_create_query().subrange(2, 17)),
        msg.spec_create_query()[18] == TAIL,
{
    let body = msg.query_body();
    let frame = msg.spec_create_query();
    assert(body.len() == 15);
    assert(frame.subrange(2, 17) =~= body);
    assert(frame[15] == body[13]);
    assert(frame[16] == body[14]);
    assert(be16(high_byte(msg.target()), low_byte(msg.target())) == msg.target());
}

/// Encode and decode agree on every setting: a sensor that confirms a
/// query about its reporting mode, its sleep mode or its working period by
/// repeating the query's subcommand and payload says what the query said.
pub proof fn lemma_echo_roundtrip(kind: Kind, target: Option<u16>, id: u16)
    requires
        kind is ReportingMode || kind is Sleep || kind is WorkingPeriod,
        kind matches Kind::WorkingPeriod(w) ==> w.minutes <= MAX_PERIOD,
    ensures
        Message::spec_parse_reply(echo((Message { kind, sensor_id: target }).spec_create_query(), id))
            == Ok::<Message, ParseError>(Message { kind, sensor_id: Some(id) }),
{
    let msg = Message { kind, sensor_id: target };
    let query = msg.spec_create_query();
    let body = msg.query_body();
    assert(body.len() == 15);
    assert(query.subrange(2, 6) =~= body.subrange(0, 4));
    assert(query.subrange(2, 6) =~= reply_payload(kind));
    lemma_reply_roundtrip(Message { kind, sensor_id: Some(id) });
}

} // verus!
