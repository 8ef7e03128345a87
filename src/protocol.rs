//! The UDP wire format: discovery probe and reply, inbound controller
//! messages of protocol version 1, and outbound telemetry frames.
use vstd::prelude::*;
use vstd::utf8::{decode_utf8, encode_utf8, valid_utf8};

verus! {

/// The only protocol version this robot speaks.
pub const PROTOCOL_VERSION: u8 = 1;

/// Value of a big-endian 16-bit integer.
pub open spec fn be16(b0: u8, b1: u8) -> int {
    b0 as int * 256 + b1 as int
}

/// Value of a big-endian 32-bit integer.
pub open spec fn be32(b0: u8, b1: u8, b2: u8, b3: u8) -> int {
    b0 as int * 0x100_0000 + b1 as int * 0x1_0000 + b2 as int * 0x100 + b3 as int
}

/// The four bytes of `n`, most significant first.
pub open spec fn be32_bytes(n: u32) -> Seq<u8> {
    seq![
        (n / 0x100_0000) as u8,
        (n / 0x1_0000 % 0x100) as u8,
        (n / 0x100 % 0x100) as u8,
        (n % 0x100) as u8,
    ]
}

/// Relies on byteorder's `BigEndian::read_u16`: the first two bytes at `at`,
/// most significant first.
#[verifier::external_body]
fn read_be_u16(b: &[u8], at: usize) -> (r: u16)
    requires
        at + 2 <= b@.len(),
    ensures
        r as int == be16(b@[at as int], b@[at + 1]),
{
    <byteorder::BigEndian as byteorder::ByteOrder>::read_u16(&b[at..])
}

/// Relies on byteorder's `BigEndian::read_u32`: the first four bytes at `at`,
/// most significant first.
#[verifier::external_body]
fn read_be_u32(b: &[u8], at: usize) -> (r: u32)
    requires
        at + 4 <= b@.len(),
    ensures
        r as int == be32(b@[at as int], b@[at + 1], b@[at + 2], b@[at + 3]),
{
    <byteorder::BigEndian as byteorder::ByteOrder>::read_u32(&b[at..])
}

/// Relies on byteorder's `BigEndian::write_u32`: writes `n` into four bytes,
/// most significant first.
#[verifier::external_body]
fn write_be_u32(n: u32) -> (r: Vec<u8>)
    ensures
        r@ == be32_bytes(n),
{
    let mut buf = vec![0u8; 4];
    <byteorder::BigEndian as byteorder::ByteOrder>::write_u32(&mut buf, n);
    buf
}

/// Relies on `String::from_utf8`: the text that the bytes encode, and
/// `None` where they are not valid UTF-8.
#[verifier::external_body]
fn string_from_utf8(b: Vec<u8>) -> (r: Option<String>)
    ensures
        r is Some <==> valid_utf8(b@),
        r is Some ==> r->Some_0@ == decode_utf8(b@),
{
    String::from_utf8(b).ok()
}

/// A command for the robot's actors, decoded from a controller message.
/// Fractions are IEEE-754 single-precision bit patterns.
#[derive(Clone, Copy, Debug, PartialEq, Eq, Structural)]
pub enum RobotCommand {
    /// Manual left and right track fractions.
    SetTrack(u32, u32),
    /// Steering trim; accepted and without effect.
    SetTrim(u32),
    /// Fire the kicker.
    Kick,
    /// Switch line following on or off.
    SetPid(bool),
    /// Take the line color from the sensor.
    SetForeground,
    /// Take the floor color from the sensor.
    SetBackground,
}

/// A decoded inbound controller message.
#[derive(Clone, Debug, PartialEq, Eq)]
pub enum ControllerMessage {
    /// Keepalive answer, without payload.
    Pong,
    /// A command that the router hands on to the actors.
    Command(RobotCommand),
    /// A new display name for the robot.
    SetName(String),
    /// A new indicator color label.
    SetLedColor(String),
}

/// Mathematical view of a [`ControllerMessage`].
pub enum MessageModel {
    Pong,
    Command(RobotCommand),
    SetName(Seq<char>),
    SetLedColor(Seq<char>),
}

impl View for ControllerMessage {
    type V = MessageModel;

    open spec fn view(&self) -> MessageModel {
        match self {
            ControllerMessage::Pong => MessageModel::Pong,
            ControllerMessage::Command(c) => MessageModel::Command(*c),
            ControllerMessage::SetName(s) => MessageModel::SetName(s@),
            ControllerMessage::SetLedColor(s) => MessageModel::SetLedColor(s@),
        }
    }
}

/// The view of an optional message.
pub open spec fn message_view(m: Option<ControllerMessage>) -> Option<MessageModel> {
    match m {
        Some(x) => Some(x@),
        None => None,
    }
}

/// The IEEE-754 bit pattern at `at`, if four bytes are there.
pub open spec fn f32_bits_at(b: Seq<u8>, at: int) -> Option<u32> {
    if at + 4 <= b.len() {
        Some(be32(b[at], b[at + 1], b[at + 2], b[at + 3]) as u32)
    } else {
        None
    }
}

/// The message that a version-1 packet holds: `[1][type][payload...]`.
/// Packets of another version, too short for their type, or of an unknown
/// type hold none; bytes after the payload are not read.
pub open spec fn decode_spec(b: Seq<u8>) -> Option<MessageModel> {
    if b.len() < 2 || b[0] != PROTOCOL_VERSION {
        None
    } else {
        let t = b[1];
        if t == 0 {
            Some(MessageModel::Pong)
        } else if t == 10 {
            match (f32_bits_at(b, 2), f32_bits_at(b, 6)) {
                (Some(l), Some(r)) => Some(MessageModel::Command(RobotCommand::SetTrack(l, r))),
                _ => None,
            }
        } else if t == 12 {
            match f32_bits_at(b, 2) {
                Some(x) => Some(MessageModel::Command(RobotCommand::SetTrim(x))),
                None => None,
            }
        } else if t == 20 {
            Some(MessageModel::Command(RobotCommand::Kick))
        } else if t == 30 {
            if b.len() < 3 {
                None
            } else {
                Some(MessageModel::Command(RobotCommand::SetPid(b[2] != 0)))
            }
        } else if t == 31 {
            Some(MessageModel::Command(RobotCommand::SetForeground))
        } else if t == 32 {
            Some(MessageModel::Command(RobotCommand::SetBackground))
        } else if t == 40 {
            if valid_utf8(b.subrange(2, b.len() as int)) {
                Some(MessageModel::SetName(decode_utf8(b.subrange(2, b.len() as int))))
            } else {
                None
            }
        } else if t == 41 {
            if valid_utf8(b.subrange(2, b.len() as int)) {
                Some(MessageModel::SetLedColor(decode_utf8(b.subrange(2, b.len() as int))))
            } else {
                None
            }
        } else {
            None
        }
    }
}

fn bits_at(b: &[u8], at: usize) -> (r: Option<u32>)
    requires
        at <= 8,
    ensures
        r == f32_bits_at(b@, at as int),
{
    if b.len() >= at + 4 {
        Some(read_be_u32(b, at))
    } else {
        None
    }
}

fn tail_from_two(b: &[u8]) -> (r: Vec<u8>)
    requires
        b@.len() >= 2,
    ensures
        r@ == b@.subrange(2, b@.len() as int),
{
    let mut r: Vec<u8> = Vec::new();
    let mut i: usize = 2;
    while i < b.len()
        invariant
            2 <= i <= b@.len(),
            r@ == b@.subrange(2, i as int),
        decreases b@.len() - i,
    {
        r.push(b[i]);
        i = i + 1;
        assert(r@ =~= b@.subrange(2, i as int));
    }
    r
}

/// Decodes one inbound packet. Malformed packets and unknown message types
/// give `None`: they are ignored, never an error.
pub fn parse_message(b: &[u8]) -> (r: Option<ControllerMessage>)
    ensures
        message_view(r) == decode_spec(b@),
{
    if b.len() < 2 || b[0] != PROTOCOL_VERSION {
        return None;
    }
    let t = b[1];
    if t == 0 {
        Some(ControllerMessage::Pong)
    } else if t == 10 {
        match (bits_at(b, 2), bits_at(b, 6)) {
            (Some(l), Some(r)) => Some(ControllerMessage::Command(RobotCommand::SetTrack(l, r))),
            _ => None,
        }
    } else if t == 12 {
        match bits_at(b, 2) {
            Some(x) => Some(ControllerMessage::Command(RobotCommand::SetTrim(x))),
            None => None,
        }
    } else if t == 20 {
        Some(ControllerMessage::Command(RobotCommand::Kick))
    } else if t == 30 {
        if b.len() < 3 {
            None
        } else {
            Some(ControllerMessage::Command(RobotCommand::SetPid(b[2] != 0)))
        }
    } else if t == 31 {
        Some(ControllerMessage::Command(RobotCommand::SetForeground))
    } else if t == 32 {
        Some(ControllerMessage::Command(RobotCommand::SetBackground))
    } else if t == 40 {
        match string_from_utf8(tail_from_two(b)) {
            Some(s) => Some(ControllerMessage::SetName(s)),
            None => None,
        }
    } else if t == 41 {
        match string_from_utf8(tail_from_two(b)) {
            Some(s) => Some(ControllerMessage::SetLedColor(s)),
            None => None,
        }
    } else {
        None
    }
}

/// Outbound message type of the version string.
pub const OUT_VERSION: u8 = 1;
/// Outbound message type of the robot's name.
pub const OUT_NAME: u8 = 2;
/// Outbound message type of the indicator color label.
pub const OUT_COLOR: u8 = 3;
/// Outbound message type of the semicolon-joined available color labels.
pub const OUT_COLOR_LIST: u8 = 4;
/// Outbound message type of three raw sensor color bytes.
pub const OUT_SENSOR_RGB: u8 = 5;
/// Outbound message type of the power fraction.
pub const OUT_POWER: u8 = 6;

/// The discovery probe broadcast until a controller answers.
pub open spec fn probe_spec() -> Seq<u8> {
    seq![0u8, 0u8, 0u8, 1u8]
}

/// Builds the four-byte discovery probe: byte 3 is 1, the others zero.
pub fn discovery_probe() -> (r: Vec<u8>)
    ensures
        r@ == probe_spec(),
{
    let r = vec![0u8, 0u8, 0u8, 1u8];
    assert(r@ =~= probe_spec());
    r
}

/// The controller's service port in a discovery reply: the big-endian
/// 16-bit integer at offset 2. A reply of fewer than four bytes holds none.
pub fn reply_port(reply: &[u8]) -> (r: Option<u16>)
    ensures
        r is Some <==> reply@.len() >= 4,
        r is Some ==> r->Some_0 as int == be16(reply@[2], reply@[3]),
{
    if reply.len() >= 4 {
        Some(read_be_u16(reply, 2))
    } else {
        None
    }
}

/// Frames an outbound message: `[1][kind][payload...]`.
pub fn frame(kind: u8, payload: &[u8]) -> (r: Vec<u8>)
    ensures
        r@ == seq![PROTOCOL_VERSION, kind] + payload@,
{
    let mut r: Vec<u8> = vec![PROTOCOL_VERSION, kind];
    let mut i: usize = 0;
    while i < payload.len()
        invariant
            i <= payload@.len(),
            r@ == seq![PROTOCOL_VERSION, kind] + payload@.subrange(0, i as int),
        decreases payload@.len() - i,
    {
        r.push(payload[i]);
        i = i + 1;
        assert(r@ =~= seq![PROTOCOL_VERSION, kind] + payload@.subrange(0, i as int));
    }
    assert(payload@.subrange(0, i as int) =~= payload@);
    r
}

/// The telemetry frame of a sensor color: three raw bytes.
pub fn sensor_color_frame(r: u8, g: u8, b: u8) -> (f: Vec<u8>)
    ensures
        f@ == seq![PROTOCOL_VERSION, OUT_SENSOR_RGB, r, g, b],
{
    let payload = vec![r, g, b];
    let f = frame(OUT_SENSOR_RGB, payload.as_slice());
    assert(f@ =~= seq![PROTOCOL_VERSION, OUT_SENSOR_RGB, r, g, b]);
    f
}

/// The telemetry frame of the power fraction, given as its IEEE-754 bit
/// pattern and sent big-endian.
pub fn power_frame(bits: u32) -> (f: Vec<u8>)
    ensures
        f@ == seq![PROTOCOL_VERSION, OUT_POWER] + be32_bytes(bits),
{
    let payload = write_be_u32(bits);
    frame(OUT_POWER, payload.as_slice())
}

/// Parts joined by semicolons.
pub open spec fn joined(parts: Seq<Seq<u8>>) -> Seq<u8>
    decreases parts.len(),
{
    if parts.len() == 0 {
        Seq::<u8>::empty()
    } else if parts.len() == 1 {
        parts[0]
    } else {
        joined(parts.drop_last()) + seq![59u8] + parts.last()
    }
}

/// The UTF-8 bytes of each string.
pub open spec fn utf8_parts(items: Seq<String>) -> Seq<Seq<u8>> {
    items.map_values(|s: String| encode_utf8(s@))
}

fn push_bytes(out: &mut Vec<u8>, b: &[u8])
    ensures
        final(out)@ == old(out)@ + b@,
{
    let mut i: usize = 0;
    while i < b.len()
        invariant
            i <= b@.len(),
            out@ == old(out)@ + b@.subrange(0, i as int),
        decreases b@.len() - i,
    {
        out.push(b[i]);
        i = i + 1;
        assert(out@ =~= old(out)@ + b@.subrange(0, i as int));
    }
    assert(b@.subrange(0, i as int) =~= b@);
}

/// The UTF-8 bytes of the labels, joined by semicolons.
pub fn join_labels(labels: &Vec<String>) -> (r: Vec<u8>)
    ensures
        r@ == joined(utf8_parts(labels@)),
{
    let ghost parts = utf8_parts(labels@);
    let mut r: Vec<u8> = Vec::new();
    let mut i: usize = 0;
    while i < labels.len()
        invariant
            i <= labels@.len(),
            parts == utf8_parts(labels@),
            r@ == joined(parts.subrange(0, i as int)),
        decreases labels@.len() - i,
    {
        let ghost before = r@;
        if i > 0 {
            r.push(59u8);
        }
        push_bytes(&mut r, labels[i].as_str().as_bytes());
        let ghost next = parts.subrange(0, i + 1);
        assert(next.drop_last() =~= parts.subrange(0, i as int));
        assert(next.last() == encode_utf8(labels@[i as int]@));
        if i == 0 {
            assert(next =~= seq![encode_utf8(labels@[0]@)]);
            assert(before =~= Seq::<u8>::empty());
            assert(r@ =~= joined(next));
        } else {
            assert(r@ =~= joined(next));
        }
        i = i + 1;
    }
    assert(parts.subrange(0, i as int) =~= parts);
    r
}

/// The four frames sent when a session starts: the version string, the
/// robot's name, its color label, and the semicolon-joined labels it offers.
pub fn greeting(version: &String, name: &String, color: &String, labels: &Vec<String>) -> (r: Vec<Vec<u8>>)
    ensures
        r@.len() == 4,
        r@[0]@ == seq![PROTOCOL_VERSION, OUT_VERSION] + encode_utf8(version@),
        r@[1]@ == seq![PROTOCOL_VERSION, OUT_NAME] + encode_utf8(name@),
        r@[2]@ == seq![PROTOCOL_VERSION, OUT_COLOR] + encode_utf8(color@),
        r@[3]@ == seq![PROTOCOL_VERSION, OUT_COLOR_LIST] + joined(utf8_parts(labels@)),
{
    let list = join_labels(labels);
    let mut r: Vec<Vec<u8>> = Vec::new();
    r.push(frame(OUT_VERSION, version.as_str().as_bytes()));
    r.push(frame(OUT_NAME, name.as_str().as_bytes()));
    r.push(frame(OUT_COLOR, color.as_str().as_bytes()));
    r.push(frame(OUT_COLOR_LIST, list.as_slice()));
    r
}

} // verus!
