//! The SPARK MAX CAN layout that shifts the device id into bits 6 and up of the arbitration id,
//! and the enums that both layouts share.

use vstd::prelude::*;

verus! {

/// The API classes of the SPARK MAX CAN protocol.
#[derive(Clone, Copy, Debug, PartialEq, Eq)]
pub enum ApiClass {
    Setpoint,
    Control,
    Status,
}

impl ApiClass {
    /// The class number that the protocol assigns to this class.
    pub fn as_u32(self) -> (res: u32)
        ensures
            res == match self {
                ApiClass::Setpoint => 0u32,
                ApiClass::Control => 1u32,
                ApiClass::Status => 46u32,
            },
    {
        match self {
            ApiClass::Setpoint => 0,
            ApiClass::Control => 1,
            ApiClass::Status => 46,
        }
    }
}

/// The units in which an arbitrary feedforward term is given.
#[derive(Clone, Copy, Debug, PartialEq, Eq)]
pub enum FeedforwardUnits {
    Voltage,
    DutyCycle,
}

/// The number that the protocol assigns to a feedforward unit: 0 for volts, 1 for duty cycle.
pub open spec fn units_number(units: FeedforwardUnits) -> u8 {
    match units {
        FeedforwardUnits::Voltage => 0u8,
        FeedforwardUnits::DutyCycle => 1u8,
    }
}

impl FeedforwardUnits {
    /// The number that the protocol assigns to this unit.
    pub fn as_u8(self) -> (res: u8)
        ensures
            res == units_number(self),
    {
        match self {
            FeedforwardUnits::Voltage => 0,
            FeedforwardUnits::DutyCycle => 1,
        }
    }
}

/// What a motor does when it is given no output.
#[derive(Clone, Copy, Debug, PartialEq, Eq)]
pub enum IdleMode {
    Brake,
    Coast,
}

/// A message to put on the CAN bus: an arbitration id and a payload of up to eight bytes.
#[derive(Clone, Debug, PartialEq, Eq)]
pub struct OutgoingMessage {
    pub id: u32,
    pub data: Vec<u8>,
}

/// A message received from the CAN bus.
#[derive(Clone, Copy, Debug, PartialEq, Eq)]
pub struct ReceivedMessage {
    pub id: u32,
    pub data: [u8; 8],
}

/// A frame of the shifted-device-id SPARK MAX layout. Setpoints and the `voltage`, `current`,
/// `velocity` and `position` fields are `f32` bit patterns; `applied_output` is the raw
/// unsigned 16-bit count.
#[derive(Clone, Copy, Debug, PartialEq, Eq)]
pub enum SparkCANFrame {
    Null,
    Heartbeat,
    DutyCycle { setpoint: u32, arb_feedforward: i16, pid_slot: u8, ff_units: FeedforwardUnits },
    Velocity { setpoint: u32, arb_feedforward: i16, pid_slot: u8, ff_units: FeedforwardUnits },
    Position { setpoint: u32, arb_feedforward: i16, pid_slot: u8, ff_units: FeedforwardUnits },
    Voltage { setpoint: u32, arb_feedforward: i16, pid_slot: u8, ff_units: FeedforwardUnits },
    Current { setpoint: u32, arb_feedforward: i16, pid_slot: u8, ff_units: FeedforwardUnits },
    Status0 {
        applied_output: u16,
        voltage: u32,
        current: u32,
        motor_temperature: u8,
        hard_forward_limit_reached: bool,
        hard_reverse_limit_reached: bool,
        soft_forward_limit_reached: bool,
        soft_reverse_limit_reached: bool,
        is_inverted: bool,
    },
    Status2 { velocity: u32, position: u32 },
}

/// The arbitration id of a frame kind before the device id is added, for the kinds that have
/// one.
pub open spec fn frame_base_id(frame: SparkCANFrame) -> Option<u32> {
    match frame {
        SparkCANFrame::Velocity { .. } => Some(0x0200_000u32),
        SparkCANFrame::DutyCycle { .. } => Some(0x0200_080u32),
        SparkCANFrame::Position { .. } => Some(0x0200_100u32),
        SparkCANFrame::Voltage { .. } => Some(0x0200_140u32),
        SparkCANFrame::Current { .. } => Some(0x0200_180u32),
        SparkCANFrame::Heartbeat => Some(0xB2u32),
        _ => None,
    }
}

/// The fields of a setpoint frame: setpoint, feedforward, PID slot and feedforward unit.
pub open spec fn setpoint_fields(frame: SparkCANFrame) -> Option<(u32, i16, u8, FeedforwardUnits)> {
    match frame {
        SparkCANFrame::Velocity { setpoint, arb_feedforward, pid_slot, ff_units } => Some(
            (setpoint, arb_feedforward, pid_slot, ff_units),
        ),
        SparkCANFrame::DutyCycle { setpoint, arb_feedforward, pid_slot, ff_units } => Some(
            (setpoint, arb_feedforward, pid_slot, ff_units),
        ),
        SparkCANFrame::Position { setpoint, arb_feedforward, pid_slot, ff_units } => Some(
            (setpoint, arb_feedforward, pid_slot, ff_units),
        ),
        SparkCANFrame::Voltage { setpoint, arb_feedforward, pid_slot, ff_units } => Some(
            (setpoint, arb_feedforward, pid_slot, ff_units),
        ),
        SparkCANFrame::Current { setpoint, arb_feedforward, pid_slot, ff_units } => Some(
            (setpoint, arb_feedforward, pid_slot, ff_units),
        ),
        _ => None,
    }
}

/// The four little-endian bytes of a `u32`.
pub open spec fn le_bytes_u32(x: u32) -> Seq<u8> {
    seq![x as u8, (x >> 8u32) as u8, (x >> 16u32) as u8, (x >> 24u32) as u8]
}

/// The payload of a setpoint frame: the setpoint's four bytes, the feedforward's two bytes
/// (little-endian), then the PID slot (modulo 4) with the feedforward unit in bit 2, then zero.
pub open spec fn setpoint_payload(
    setpoint: u32,
    ff: i16,
    pid_slot: u8,
    units: FeedforwardUnits,
) -> Seq<u8> {
    le_bytes_u32(setpoint) + seq![
        (ff as u16) as u8,
        ((ff as u16) >> 8u16) as u8,
        (pid_slot & 3u8) | (units_number(units) << 2u8),
        0u8,
    ]
}

/// The frame that a received message carries: only the status 0 id is recognised, and only
/// its applied output (the little-endian `u16` in bytes 0..2) is read.
pub open spec fn status_of_message(message: ReceivedMessage) -> Option<SparkCANFrame> {
    if message.id == 0x205B_800u32 {
        Some(
            SparkCANFrame::Status0 {
                applied_output: (message.data[0] as u16) | ((message.data[1] as u16) << 8u16),
                voltage: 0,
                current: 0,
                motor_temperature: 0,
                hard_forward_limit_reached: false,
                hard_reverse_limit_reached: false,
                soft_forward_limit_reached: false,
                soft_reverse_limit_reached: false,
                is_inverted: false,
            },
        )
    } else {
        None
    }
}

/// The frames that a batch of received messages carries, in order.
pub open spec fn frames_of_messages(messages: Seq<ReceivedMessage>) -> Seq<SparkCANFrame>
    decreases messages.len(),
{
    if messages.len() == 0 {
        Seq::empty()
    } else {
        let rest = frames_of_messages(messages.drop_last());
        match status_of_message(messages.last()) {
            Some(frame) => rest.push(frame),
            None => rest,
        }
    }
}

fn le_bytes(x: u32) -> (res: [u8; 4])
    ensures
        res@ == le_bytes_u32(x),
{
    let res = [x as u8, (x >> 8u32) as u8, (x >> 16u32) as u8, (x >> 24u32) as u8];
    assert(res@ =~= le_bytes_u32(x));
    res
}

impl SparkCANFrame {
    /// The arbitration id of this frame sent to device `device_id`: the kind's base id with the
    /// device id shifted into bits 6 and up. Only the setpoint kinds and `Heartbeat` have one.
    pub fn arb_id(&self, device_id: u32) -> (res: u32)
        requires
            frame_base_id(*self) is Some,
        ensures
            res == frame_base_id(*self)->0 | (device_id << 6u32),
            *self is Velocity ==> res == 0x0200_000u32 | (device_id << 6u32),
            *self is DutyCycle ==> res == 0x0200_080u32 | (device_id << 6u32),
            *self is Position ==> res == 0x0200_100u32 | (device_id << 6u32),
            *self is Voltage ==> res == 0x0200_140u32 | (device_id << 6u32),
            *self is Current ==> res == 0x0200_180u32 | (device_id << 6u32),
            *self is Heartbeat ==> res == 0xB2u32 | (device_id << 6u32),
    {
        let frame_arb_id: u32 = match self {
            SparkCANFrame::Velocity { .. } => 0x0200_000,
            SparkCANFrame::DutyCycle { .. } => 0x0200_080,
            SparkCANFrame::Position { .. } => 0x0200_100,
            SparkCANFrame::Voltage { .. } => 0x0200_140,
            SparkCANFrame::Current { .. } => 0x0200_180,
            _ => 0xB2,
        };
        frame_arb_id | (device_id << 6u32)
    }

    /// The eight-byte payload of a setpoint frame.
    pub fn to_can_bytes(&self) -> (res: [u8; 8])
        requires
            setpoint_fields(*self) is Some,
        ensures
            res@ == ({
                let (sp, ff, slot, units) = setpoint_fields(*self)->0;
                setpoint_payload(sp, ff, slot, units)
            }),
    {
        let (sp, ff, slot, units) = match *self {
            SparkCANFrame::Velocity { setpoint, arb_feedforward, pid_slot, ff_units }
            | SparkCANFrame::DutyCycle { setpoint, arb_feedforward, pid_slot, ff_units }
            | SparkCANFrame::Position { setpoint, arb_feedforward, pid_slot, ff_units }
            | SparkCANFrame::Voltage { setpoint, arb_feedforward, pid_slot, ff_units }
            | SparkCANFrame::Current { setpoint, arb_feedforward, pid_slot, ff_units } => (
                setpoint,
                arb_feedforward,
                pid_slot,
                ff_units,
            ),
            _ => (0, 0, 0, FeedforwardUnits::Voltage),
        };
        let s = le_bytes(sp);
        let f = ff as u16;
        let data = [
            s[0],
            s[1],
            s[2],
            s[3],
            f as u8,
            (f >> 8u16) as u8,
            (slot & 0x03u8) | (units.as_u8() << 2u8),
            0u8,
        ];
        assert(data@ =~= setpoint_payload(sp, ff, slot, units));
        data
    }

    /// The arbitration id of the heartbeat frame sent to device `device_id`.
    pub fn heartbeat(device_id: u32) -> (res: u32)
        ensures
            res == 0xB2u32 | (device_id << 6u32),
    {
        SparkCANFrame::Heartbeat.arb_id(device_id)
    }
}

/// The client side of one SPARK MAX on the CAN bus, for the shifted-device-id layout: it
/// turns requests into the messages to send and received messages into frames.
pub struct CANClient {
    device_id: u8,
}

impl CANClient {
    pub closed spec fn device(&self) -> u8 {
        self.device_id
    }

    /// A client for the controller with CAN id `device_id`.
    pub fn new(device_id: u8) -> (res: Self)
        ensures
            res.device() == device_id,
    {
        CANClient { device_id }
    }

    /// The heartbeat message for this client's device: eight zero bytes under the heartbeat id.
    pub fn send_heartbeat(&self) -> (res: OutgoingMessage)
        ensures
            res.id == 0xB2u32 | ((self.device() as u32) << 6u32),
            res.data@ == seq![0u8, 0u8, 0u8, 0u8, 0u8, 0u8, 0u8, 0u8],
    {
        let id = SparkCANFrame::heartbeat(self.device_id as u32);
        let data = vec![0u8, 0u8, 0u8, 0u8, 0u8, 0u8, 0u8, 0u8];
        assert(data@ =~= seq![0u8, 0u8, 0u8, 0u8, 0u8, 0u8, 0u8, 0u8]);
        OutgoingMessage { id, data }
    }

    /// The message that sets the duty cycle: the duty-cycle id for this device, and the four
    /// little-endian bytes of `percent`, the bit pattern of the percentage already clamped to
    /// `-1.0 ..= 1.0`.
    pub fn set_percent(&self, percent: u32) -> (res: OutgoingMessage)
        ensures
            res.id == 0x0200_080u32 | ((self.device() as u32) << 6u32),
            res.data@ == le_bytes_u32(percent),
    {
        let id = SparkCANFrame::DutyCycle {
            setpoint: percent,
            arb_feedforward: 0,
            pid_slot: 0,
            ff_units: FeedforwardUnits::DutyCycle,
        }.arb_id(self.device_id as u32);
        let b = le_bytes(percent);
        let data = vec![b[0], b[1], b[2], b[3]];
        assert(data@ =~= le_bytes_u32(percent));
        OutgoingMessage { id, data }
    }

    /// The message that sets the voltage: the voltage id for this device, and the four
    /// little-endian bytes of `voltage`, the bit pattern of the voltage.
    pub fn set_voltage(&self, voltage: u32) -> (res: OutgoingMessage)
        ensures
            res.id == 0x0200_140u32 | ((self.device() as u32) << 6u32),
            res.data@ == le_bytes_u32(voltage),
    {
        let id = SparkCANFrame::Voltage {
            setpoint: voltage,
            arb_feedforward: 0,
            pid_slot: 0,
            ff_units: FeedforwardUnits::Voltage,
        }.arb_id(self.device_id as u32);
        let b = le_bytes(voltage);
        let data = vec![b[0], b[1], b[2], b[3]];
        assert(data@ =~= le_bytes_u32(voltage));
        OutgoingMessage { id, data }
    }

    /// The acceptance mask for the receive stream.
    pub fn create_mask(&self) -> (res: u32)
        ensures
            res == 0xFFFF_0000u32,
    {
        let res = 0u32 | 0x3Fu32 << 16u32 | 0x3Fu32 << 22u32 | 0x3Fu32 << 28u32;
        assert(0u32 | 0x3Fu32 << 16u32 | 0x3Fu32 << 22u32 | 0x3Fu32 << 28u32 == 0xFFFF_0000u32)
            by (bit_vector);
        res
    }

    /// The arbitration id of `frame` for device `device_id`, with the device id or-ed in once
    /// more.
    pub fn create_arb_id_from_info(device_id: u32, frame: SparkCANFrame) -> (res: u32)
        requires
            frame_base_id(frame) is Some,
        ensures
            res == frame_base_id(frame)->0 | (device_id << 6u32) | (device_id << 6u32),
    {
        frame.arb_id(device_id) | device_id << 6u32
    }

    /// The frames that a batch of received messages carries, in order; messages other than
    /// status 0 are skipped.
    pub fn read_frames(&self, messages: &Vec<ReceivedMessage>) -> (res: Vec<SparkCANFrame>)
        ensures
            res@ == frames_of_messages(messages@),
    {
        let mut can_responses: Vec<SparkCANFrame> = Vec::new();
        let mut i: usize = 0;
        while i < messages.len()
            invariant
                i <= messages.len(),
                can_responses@ == frames_of_messages(messages@.take(i as int)),
            decreases messages.len() - i,
        {
            assert(messages@.take((i + 1) as int).drop_last() =~= messages@.take(i as int));
            let message = messages[i];
            if message.id == 0x205B_800u32 {
                can_responses.push(
                    SparkCANFrame::Status0 {
                        applied_output: (message.data[0] as u16) | ((message.data[1] as u16)
                            << 8u16),
                        voltage: 0,
                        current: 0,
                        motor_temperature: 0,
                        hard_forward_limit_reached: false,
                        hard_reverse_limit_reached: false,
                        soft_forward_limit_reached: false,
                        soft_reverse_limit_reached: false,
                        is_inverted: false,
                    },
                );
            }
            i = i + 1;
        }
        assert(messages@.take(messages.len() as int) =~= messages@);
        can_responses
    }
}

/// Or-ing the device id in a second time changes nothing: `create_arb_id_from_info` gives the
/// frame's own arbitration id.
pub proof fn lemma_create_arb_id_is_arb_id(device_id: u32, frame: SparkCANFrame)
    requires
        frame_base_id(frame) is Some,
    ensures
        frame_base_id(frame)->0 | (device_id << 6u32) | (device_id << 6u32) == frame_base_id(
            frame,
        )->0 | (device_id << 6u32),
{
    let base = frame_base_id(frame)->0;
    assert(base | (device_id << 6u32) | (device_id << 6u32) == base | (device_id << 6u32))
        by (bit_vector);
}

/// The base ids of the protocol: velocity `0x0200000`, duty cycle `0x0200080`, position
/// `0x0200100`, voltage `0x0200140`, current `0x0200180` and heartbeat `0xB2`; no other kind
/// has one.
pub proof fn lemma_base_id_table(frame: SparkCANFrame)
    ensures
        frame is Velocity ==> frame_base_id(frame) == Some(0x0200_000u32),
        frame is DutyCycle ==> frame_base_id(frame) == Some(0x0200_080u32),
        frame is Position ==> frame_base_id(frame) == Some(0x0200_100u32),
        frame is Voltage ==> frame_base_id(frame) == Some(0x0200_140u32),
        frame is Current ==> frame_base_id(frame) == Some(0x0200_180u32),
        frame is Heartbeat ==> frame_base_id(frame) == Some(0xB2u32),
        frame_base_id(frame) is Some <==> (frame is Velocity || frame is DutyCycle
            || frame is Position || frame is Voltage || frame is Current || frame is Heartbeat),
{
}

/// Two frames with the same base id are of the same kind: no setpoint can be sent as
/// another kind.
pub proof fn lemma_base_ids_distinct(a: SparkCANFrame, b: SparkCANFrame)
    requires
        frame_base_id(a) is Some,
        frame_base_id(a) == frame_base_id(b),
    ensures
        a is Velocity <==> b is Velocity,
        a is DutyCycle <==> b is DutyCycle,
        a is Position <==> b is Position,
        a is Voltage <==> b is Voltage,
        a is Current <==> b is Current,
        a is Heartbeat <==> b is Heartbeat,
{
}

/// How a setpoint's fields lay out in bytes in this layout.
proof fn lemma_setpoint_byte_values(setpoint: u32, ff: i16, slot: u8, units: u8)
    by (bit_vector)
    requires
        units <= 1,
    ensures
        (setpoint as u8) as u32 + 256 * ((setpoint >> 8u32) as u8) as u32 + 65536 * ((setpoint
            >> 16u32) as u8) as u32 + 16777216 * ((setpoint >> 24u32) as u8) as u32 == setpoint,
        ((ff as u16) as u8) as u16 + 256 * (((ff as u16) >> 8u16) as u8) as u16 == ff as u16,
        ((slot & 3u8) | (units << 2u8)) % 4 == slot % 4,
        ((slot & 3u8) | (units << 2u8)) / 4 == units,
{
}

/// A setpoint frame's payload carries its fields: the setpoint as the little-endian number
/// of bytes 0-3, the feedforward as the little-endian 16-bit two's complement number of bytes
/// 4-5, the PID slot (modulo 4) in the low two bits of byte 6 and the feedforward unit
/// (1 for duty cycle, 0 for volts) above them, and a zero byte 7.
pub proof fn lemma_setpoint_payload_bytes(frame: SparkCANFrame)
    requires
        setpoint_fields(frame) is Some,
    ensures
        ({
            let (setpoint, ff, slot, units) = setpoint_fields(frame)->0;
            let data = setpoint_payload(setpoint, ff, slot, units);
            &&& data.len() == 8
            &&& data[0] + 256 * data[1] + 65536 * data[2] + 16777216 * data[3] == setpoint
            &&& data[4] + 256 * data[5] == (if ff < 0 {
                ff + 65536
            } else {
                ff as int
            })
            &&& data[6] % 4 == slot % 4
            &&& data[6] / 4 == (if units == FeedforwardUnits::DutyCycle {
                1int
            } else {
                0int
            })
            &&& data[7] == 0
        }),
{
    let (setpoint, ff, slot, units) = setpoint_fields(frame)->0;
    lemma_setpoint_byte_values(setpoint, ff, slot, units_number(units));
    assert((ff as u16) as int == (if ff < 0 {
        ff + 65536
    } else {
        ff as int
    })) by (bit_vector);
}

/// Only a message with the status 0 id itself is decoded, and it reports the applied output
/// as the little-endian 16-bit number of bytes 0-1 and nothing else.
pub proof fn lemma_status0_message(message: ReceivedMessage)
    ensures
        message.id != 0x205B_800u32 ==> status_of_message(message) is None,
        message.id == 0x205B_800u32 ==> (status_of_message(message) matches Some(
            SparkCANFrame::Status0 {
                applied_output,
                voltage,
                current,
                motor_temperature,
                hard_forward_limit_reached,
                hard_reverse_limit_reached,
                soft_forward_limit_reached,
                soft_reverse_limit_reached,
                is_inverted,
            },
        ) && applied_output == message.data[0] + 256 * message.data[1] && voltage == 0 && current
            == 0 && motor_temperature == 0 && !hard_forward_limit_reached
            && !hard_reverse_limit_reached && !soft_forward_limit_reached
            && !soft_reverse_limit_reached && !is_inverted),
{
    let b0 = message.data[0];
    let b1 = message.data[1];
    assert((b0 as u16) | ((b1 as u16) << 8u16) == b0 + 256 * b1) by (bit_vector);
}

} // verus!
