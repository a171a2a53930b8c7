//! The REV SPARK MAX CAN protocol with the device id in the low six bits of the arbitration id:
//! setpoints, commands and the ten periodic status frames.

use vstd::prelude::*;

use crate::bits::{
    bit, bit_at, field, lemma_sign_extension_value, load_bits, payload_word, set_bit, store_bits,
    with_bit, with_field, word_of_bytes,
};

pub use crate::can::{ApiClass, FeedforwardUnits, IdleMode, units_number};

verus! {

/// A message on the CAN bus: an arbitration id and an eight-byte payload.
#[derive(Clone, Copy, Debug, PartialEq, Eq)]
pub struct CanMessage {
    pub id: u32,
    pub data: [u8; 8],
}

/// The contents of a setpoint frame.
///
/// `setpoint` is the IEEE-754 bit pattern of the `f32` setpoint. `arb_feedforward` is the bit
/// pattern of the `f32` word that the frame carries for the arbitrary feedforward: the
/// feedforward clamped to `-32768.0 ..= 32767.0` and divided by `0.0009765923`.
#[derive(Clone, Copy, Debug, PartialEq, Eq)]
pub struct SparkCANSetpoint {
    pub setpoint: u32,
    pub arb_feedforward: u32,
    pub pid_slot: u8,
    pub ff_units: FeedforwardUnits,
}

/// Periodic status 0. `applied_output` is the signed 16-bit count (one count is
/// `0.00003082369457075716` of full output); `voltage` and `current` are the unsigned 12-bit
/// counts (one count is `0.0073260073260073` V and `0.0366300366300366` A).
#[derive(Clone, Copy, Debug, PartialEq, Eq)]
pub struct Status0 {
    pub applied_output: i32,
    pub voltage: u16,
    pub current: u16,
    pub motor_temperature: u8,
    pub hard_forward_limit_reached: bool,
    pub hard_reverse_limit_reached: bool,
    pub soft_forward_limit_reached: bool,
    pub soft_reverse_limit_reached: bool,
    pub is_inverted: bool,
}

/// Periodic status 1: faults and warnings.
#[derive(Clone, Copy, Debug, PartialEq, Eq)]
pub struct Status1 {
    pub other_fault: bool,
    pub motor_type_fault: bool,
    pub sensor_fault: bool,
    pub can_fault: bool,
    pub temperature_fault: bool,
    pub drv_fault: bool,
    pub esc_eeprom_fault: bool,
    pub firmware_fault: bool,
    pub reserved_actives: u8,
    pub brownout_warning: bool,
    pub overcurrent_warning: bool,
    pub esc_eeprom_warning: bool,
    pub ext_eeprom_warning: bool,
    pub sensor_warning: bool,
    pub stall_warning: bool,
    pub has_reset_warning: bool,
    pub other_warning: bool,
    pub other_sticky_fault: bool,
    pub motor_type_sticky_fault: bool,
    pub sensor_sticky_fault: bool,
    pub can_sticky_fault: bool,
    pub temperature_sticky_fault: bool,
    pub drv_sticky_fault: bool,
    pub esc_eeprom_sticky_fault: bool,
    pub firmware_sticky_fault: bool,
    pub brownout_sticky_warning: bool,
    pub overcurrent_sticky_warning: bool,
    pub esc_eeprom_sticky_warning: bool,
    pub ext_eeprom_sticky_warning: bool,
    pub sensor_sticky_warning: bool,
    pub stall_sticky_warning: bool,
    pub has_reset_sticky_warning: bool,
    pub other_sticky_warning: bool,
    pub is_follower: bool,
}

/// Periodic status 2: the `f32` bit patterns of the primary encoder's velocity and position.
#[derive(Clone, Copy, Debug, PartialEq, Eq)]
pub struct Status2 {
    pub velocity: u32,
    pub position: u32,
}

/// Periodic status 3. `analog_voltage` is the unsigned 10-bit count (one count is
/// `0.0048973607038123` V), `analog_velocity` the signed 22-bit count (one count is
/// `0.007812026887906498`), `analog_position` the unsigned 32-bit position.
#[derive(Clone, Copy, Debug, PartialEq, Eq)]
pub struct Status3 {
    pub analog_voltage: u16,
    pub analog_velocity: i32,
    pub analog_position: u32,
}

/// Periodic status 4: the `f32` bit patterns of the external or alternate encoder's velocity
/// and position.
#[derive(Clone, Copy, Debug, PartialEq, Eq)]
pub struct Status4 {
    pub external_or_alt_encoder_velocity: u32,
    pub external_or_alt_encoder_position: u32,
}

/// Periodic status 5: the `f32` bit patterns of the duty-cycle encoder's velocity and position.
#[derive(Clone, Copy, Debug, PartialEq, Eq)]
pub struct Status5 {
    pub duty_cycle_encoder_velocity: u32,
    pub duty_cycle_encoder_position: u32,
}

/// Periodic status 6. `unadjusted_duty_cycle` is the unsigned 16-bit count (one count is
/// `0.00001541161211566339`).
#[derive(Clone, Copy, Debug, PartialEq, Eq)]
pub struct Status6 {
    pub unadjusted_duty_cycle: u16,
    pub duty_cycle_period: u16,
    pub duty_cycle_no_signal: bool,
    pub duty_cycle_reserved: i32,
}

/// Periodic status 7: the `f32` bit pattern of the I accumulator.
#[derive(Clone, Copy, Debug, PartialEq, Eq)]
pub struct Status7 {
    pub i_accumulation: u32,
}

/// Periodic status 8: the `f32` bit pattern of the setpoint, and the closed loop's state.
#[derive(Clone, Copy, Debug, PartialEq, Eq)]
pub struct Status8 {
    pub setpoint: u32,
    pub is_at_setpoint: bool,
    pub selected_pid_slot: u8,
}

/// Periodic status 9: the `f32` bit patterns of the MAXMotion setpoints.
#[derive(Clone, Copy, Debug, PartialEq, Eq)]
pub struct Status9 {
    pub maxmotion_position_setpoint: u32,
    pub maxmotion_velocity_setpoint: u32,
}

/// A frame of the SPARK MAX protocol. The `position` and `i_accumulation` fields are `f32` bit
/// patterns.
#[derive(Clone, Copy, Debug, PartialEq, Eq)]
pub enum SparkCANFrame {
    Null,
    DutyCycleSetpoint(SparkCANSetpoint),
    VelocitySetpoint(SparkCANSetpoint),
    PositionSetpoint(SparkCANSetpoint),
    MAXMotionVelocitySetpoint(SparkCANSetpoint),
    MAXMotionPositionSetpoint(SparkCANSetpoint),
    VoltageSetpoint(SparkCANSetpoint),
    CurrentSetpoint(SparkCANSetpoint),
    ClearFaults,
    SetIAccumulation { i_accumulation: u32 },
    SetAnalogPosition { position: u32 },
    SetPrimaryEncoderPosition { position: u32 },
    SetExtOrAltEncoderPosition { position: u32 },
    SetDutyCyclePosition { position: u32 },
    StartFollowerMode,
    StopFollowerMode,
    PersistParameters,
    Status0(Status0),
    Status1(Status1),
    Status2(Status2),
    Status3(Status3),
    Status4(Status4),
    Status5(Status5),
    Status6(Status6),
    Status7(Status7),
    Status8(Status8),
    Status9(Status9),
}

/// The arbitration id of a frame kind with the device id left out, for the kinds that have
/// one.
pub open spec fn frame_base_id(frame: SparkCANFrame) -> Option<u32> {
    match frame {
        SparkCANFrame::VelocitySetpoint(_) => Some(0x2050_000u32),
        SparkCANFrame::DutyCycleSetpoint(_) => Some(0x2050_080u32),
        SparkCANFrame::PositionSetpoint(_) => Some(0x2050_100u32),
        SparkCANFrame::VoltageSetpoint(_) => Some(0x2050_140u32),
        SparkCANFrame::CurrentSetpoint(_) => Some(0x2050_180u32),
        SparkCANFrame::StopFollowerMode => Some(0x2057_C80u32),
        SparkCANFrame::ClearFaults => Some(0x2051_B80u32),
        _ => None,
    }
}

/// The setpoint carried by one of the five setpoint kinds that have a payload layout.
pub open spec fn encodable_setpoint(frame: SparkCANFrame) -> Option<SparkCANSetpoint> {
    match frame {
        SparkCANFrame::VelocitySetpoint(s) => Some(s),
        SparkCANFrame::DutyCycleSetpoint(s) => Some(s),
        SparkCANFrame::PositionSetpoint(s) => Some(s),
        SparkCANFrame::VoltageSetpoint(s) => Some(s),
        SparkCANFrame::CurrentSetpoint(s) => Some(s),
        _ => None,
    }
}

/// The payload word of a setpoint frame: the setpoint in bits 0..32, the feedforward word in
/// bits 32..64 except that bits 48..50 hold the PID slot (two bits) and bit 50 holds the
/// feedforward unit (set for duty cycle).
pub open spec fn setpoint_payload(s: SparkCANSetpoint) -> u64 {
    (s.setpoint as u64) | (((s.arb_feedforward & 0xFFFFu32) as u64) << 32u64) | (((s.pid_slot
        & 3u8) as u64) << 48u64) | ((units_number(s.ff_units) as u64) << 50u64) | (((
    s.arb_feedforward >> 19u32) as u64) << 51u64)
}

/// The payload word of a frame, for the kinds that have a payload layout.
pub open spec fn frame_payload(frame: SparkCANFrame) -> Option<u64> {
    match frame {
        SparkCANFrame::ClearFaults => Some(0u64),
        SparkCANFrame::StartFollowerMode => Some(0u64),
        SparkCANFrame::StopFollowerMode => Some(0u64),
        SparkCANFrame::PersistParameters => Some(15011u64),
        _ => match encodable_setpoint(frame) {
            Some(s) => Some(setpoint_payload(s)),
            None => None,
        },
    }
}

/// The `u32` made of four little-endian bytes.
pub open spec fn u32_of_bytes(b0: u8, b1: u8, b2: u8, b3: u8) -> u32 {
    (b0 as u32) | ((b1 as u32) << 8u32) | ((b2 as u32) << 16u32) | ((b3 as u32) << 24u32)
}

/// The signed integer held in two's complement in payload bits `start .. start + len`.
pub open spec fn signed_field(word: u64, start: u64, len: u64) -> i32 {
    let v = field(word, start, len);
    if v >= (1u64 << ((len - 1) as u64)) {
        (v as i64 - (1i64 << len)) as i32
    } else {
        v as i32
    }
}

/// The status 0 frame that a payload carries.
pub open spec fn status0_of(data: Seq<u8>) -> Status0 {
    let w = payload_word(data);
    Status0 {
        applied_output: signed_field(w, 0, 16),
        voltage: field(w, 16, 12) as u16,
        current: field(w, 28, 12) as u16,
        motor_temperature: data[5],
        hard_forward_limit_reached: bit(w, 48),
        soft_forward_limit_reached: bit(w, 49),
        hard_reverse_limit_reached: bit(w, 50),
        soft_reverse_limit_reached: bit(w, 51),
        is_inverted: bit(w, 52),
    }
}

/// The status 1 frame that a payload carries.
pub open spec fn status1_of(data: Seq<u8>) -> Status1 {
    let w = payload_word(data);
    Status1 {
        other_fault: bit(w, 0),
        motor_type_fault: bit(w, 1),
        sensor_fault: bit(w, 2),
        can_fault: bit(w, 3),
        temperature_fault: bit(w, 4),
        drv_fault: bit(w, 5),
        esc_eeprom_fault: bit(w, 6),
        firmware_fault: bit(w, 7),
        reserved_actives: field(w, 8, 8) as u8,
        brownout_warning: bit(w, 16),
        overcurrent_warning: bit(w, 17),
        esc_eeprom_warning: bit(w, 18),
        ext_eeprom_warning: bit(w, 19),
        sensor_warning: bit(w, 20),
        stall_warning: bit(w, 21),
        has_reset_warning: bit(w, 22),
        other_warning: bit(w, 23),
        other_sticky_fault: bit(w, 24),
        motor_type_sticky_fault: bit(w, 25),
        sensor_sticky_fault: bit(w, 26),
        can_sticky_fault: bit(w, 27),
        temperature_sticky_fault: bit(w, 28),
        drv_sticky_fault: bit(w, 29),
        esc_eeprom_sticky_fault: bit(w, 30),
        firmware_sticky_fault: bit(w, 31),
        brownout_sticky_warning: bit(w, 40),
        overcurrent_sticky_warning: bit(w, 41),
        esc_eeprom_sticky_warning: bit(w, 42),
        ext_eeprom_sticky_warning: bit(w, 43),
        sensor_sticky_warning: bit(w, 44),
        stall_sticky_warning: bit(w, 45),
        has_reset_sticky_warning: bit(w, 46),
        other_sticky_warning: bit(w, 47),
        is_follower: bit(w, 48),
    }
}

/// The status 2 frame that a payload carries.
pub open spec fn status2_of(data: Seq<u8>) -> Status2 {
    let w = payload_word(data);
    Status2 {
        velocity: u32_of_bytes(data[0], data[1], data[2], data[3]),
        position: u32_of_bytes(data[4], data[5], data[6], data[7]),
    }
}

/// The status 3 frame that a payload carries.
pub open spec fn status3_of(data: Seq<u8>) -> Status3 {
    let w = payload_word(data);
    Status3 {
        analog_voltage: field(w, 0, 10) as u16,
        analog_velocity: signed_field(w, 10, 22),
        analog_position: field(w, 32, 32) as u32,
    }
}

/// The status 4 frame that a payload carries.
pub open spec fn status4_of(data: Seq<u8>) -> Status4 {
    let w = payload_word(data);
    Status4 {
        external_or_alt_encoder_velocity: u32_of_bytes(
            data[0],
            data[1],
            data[2],
            data[3],
        ),
        external_or_alt_encoder_position: u32_of_bytes(
            data[4],
            data[5],
            data[6],
            data[7],
        ),
    }
}

/// The status 5 frame that a payload carries.
pub open spec fn status5_of(data: Seq<u8>) -> Status5 {
    let w = payload_word(data);
    Status5 {
        duty_cycle_encoder_velocity: u32_of_bytes(data[0], data[1], data[2], data[3]),
        duty_cycle_encoder_position: u32_of_bytes(data[4], data[5], data[6], data[7]),
    }
}

/// The status 6 frame that a payload carries.
pub open spec fn status6_of(data: Seq<u8>) -> Status6 {
    let w = payload_word(data);
    Status6 {
        unadjusted_duty_cycle: field(w, 0, 16) as u16,
        duty_cycle_period: field(w, 16, 16) as u16,
        duty_cycle_no_signal: bit(w, 32),
        duty_cycle_reserved: signed_field(w, 33, 31),
    }
}

/// The status 7 frame that a payload carries.
pub open spec fn status7_of(data: Seq<u8>) -> Status7 {
    let w = payload_word(data);
    Status7 { i_accumulation: u32_of_bytes(data[0], data[1], data[2], data[3]) }
}

/// The status 8 frame that a payload carries.
pub open spec fn status8_of(data: Seq<u8>) -> Status8 {
    let w = payload_word(data);
    Status8 {
        setpoint: u32_of_bytes(data[0], data[1], data[2], data[3]),
        is_at_setpoint: bit(w, 32),
        selected_pid_slot: field(w, 33, 4) as u8,
    }
}

/// The status 9 frame that a payload carries.
pub open spec fn status9_of(data: Seq<u8>) -> Status9 {
    let w = payload_word(data);
    Status9 {
        maxmotion_position_setpoint: u32_of_bytes(data[0], data[1], data[2], data[3]),
        maxmotion_velocity_setpoint: u32_of_bytes(data[4], data[5], data[6], data[7]),
    }
}

/// The status frame that a received message carries, if its id (with the device id in the low
/// six bits cleared) is one of the status ids.
pub open spec fn status_of_message(id: u32, data: Seq<u8>) -> Option<SparkCANFrame> {
    let base = id & !0x3Fu32;
    if base == 0x205B_800u32 {
        Some(SparkCANFrame::Status0(status0_of(data)))
    } else if base == 0x205B_840u32 {
        Some(SparkCANFrame::Status1(status1_of(data)))
    } else if base == 0x205B_880u32 {
        Some(SparkCANFrame::Status2(status2_of(data)))
    } else if base == 0x205B_8C0u32 {
        Some(SparkCANFrame::Status3(status3_of(data)))
    } else if base == 0x205B_900u32 {
        Some(SparkCANFrame::Status4(status4_of(data)))
    } else if base == 0x205B_940u32 {
        Some(SparkCANFrame::Status5(status5_of(data)))
    } else if base == 0x205B_980u32 {
        Some(SparkCANFrame::Status6(status6_of(data)))
    } else if base == 0x205B_9C0u32 {
        Some(SparkCANFrame::Status7(status7_of(data)))
    } else if base == 0x205B_A00u32 {
        Some(SparkCANFrame::Status8(status8_of(data)))
    } else if base == 0x205B_A40u32 {
        Some(SparkCANFrame::Status9(status9_of(data)))
    } else {
        None
    }
}

/// The frames that a batch of received messages carries, in order, skipping the messages whose
/// id is not a status id.
pub open spec fn frames_of_messages(messages: Seq<CanMessage>) -> Seq<SparkCANFrame>
    decreases messages.len(),
{
    if messages.len() == 0 {
        Seq::empty()
    } else {
        let rest = frames_of_messages(messages.drop_last());
        match status_of_message(messages.last().id, messages.last().data@) {
            Some(frame) => rest.push(frame),
            None => rest,
        }
    }
}

proof fn lemma_field_below(word: u64, start: u64, len: u64)
    requires
        start < 64,
        1 <= len < 64,
    ensures
        field(word, start, len) < (1u64 << len),
{
    assert((word >> start) & !(0xFFFF_FFFF_FFFF_FFFFu64 << len) < (1u64 << len)) by (bit_vector)
        requires
            1 <= len < 64,
    ;
}

/// Reads a signed field of `len` bits at payload bit `start`.
fn load_signed(data: &[u8; 8], start: usize, len: u16) -> (res: i32)
    requires
        1 <= len <= 31,
        start + len <= 64,
    ensures
        res == signed_field(payload_word(data@), start as u64, len as u64),
{
    let v = load_bits(data, start, start + len as usize);
    proof {
        lemma_field_below(payload_word(data@), start as u64, len as u64);
    }
    let res = crate::bits::sign_extend(v as i32, len);
    proof {
        lemma_sign_extension_value(v, len, res);
    }
    res
}

fn u32_from_bytes(b0: u8, b1: u8, b2: u8, b3: u8) -> (res: u32)
    ensures
        res == u32_of_bytes(b0, b1, b2, b3),
{
    (b0 as u32) | ((b1 as u32) << 8u32) | ((b2 as u32) << 16u32) | ((b3 as u32) << 24u32)
}

fn status0_from(data: &[u8; 8]) -> (res: Status0)
    ensures
        res == status0_of(data@),
{
    Status0 {
        applied_output: load_signed(data, 0, 16),
        voltage: load_bits(data, 16, 28) as u16,
        current: load_bits(data, 28, 40) as u16,
        motor_temperature: data[5],
        hard_forward_limit_reached: bit_at(data, 48),
        soft_forward_limit_reached: bit_at(data, 49),
        hard_reverse_limit_reached: bit_at(data, 50),
        soft_reverse_limit_reached: bit_at(data, 51),
        is_inverted: bit_at(data, 52),
    }
}

fn status1_from(data: &[u8; 8]) -> (res: Status1)
    ensures
        res == status1_of(data@),
{
    Status1 {
        other_fault: bit_at(data, 0),
        motor_type_fault: bit_at(data, 1),
        sensor_fault: bit_at(data, 2),
        can_fault: bit_at(data, 3),
        temperature_fault: bit_at(data, 4),
        drv_fault: bit_at(data, 5),
        esc_eeprom_fault: bit_at(data, 6),
        firmware_fault: bit_at(data, 7),
        reserved_actives: load_bits(data, 8, 16) as u8,
        brownout_warning: bit_at(data, 16),
        overcurrent_warning: bit_at(data, 17),
        esc_eeprom_warning: bit_at(data, 18),
        ext_eeprom_warning: bit_at(data, 19),
        sensor_warning: bit_at(data, 20),
        stall_warning: bit_at(data, 21),
        has_reset_warning: bit_at(data, 22),
        other_warning: bit_at(data, 23),
        other_sticky_fault: bit_at(data, 24),
        motor_type_sticky_fault: bit_at(data, 25),
        sensor_sticky_fault: bit_at(data, 26),
        can_sticky_fault: bit_at(data, 27),
        temperature_sticky_fault: bit_at(data, 28),
        drv_sticky_fault: bit_at(data, 29),
        esc_eeprom_sticky_fault: bit_at(data, 30),
        firmware_sticky_fault: bit_at(data, 31),
        brownout_sticky_warning: bit_at(data, 40),
        overcurrent_sticky_warning: bit_at(data, 41),
        esc_eeprom_sticky_warning: bit_at(data, 42),
        ext_eeprom_sticky_warning: bit_at(data, 43),
        sensor_sticky_warning: bit_at(data, 44),
        stall_sticky_warning: bit_at(data, 45),
        has_reset_sticky_warning: bit_at(data, 46),
        other_sticky_warning: bit_at(data, 47),
        is_follower: bit_at(data, 48),
    }
}

fn status2_from(data: &[u8; 8]) -> (res: Status2)
    ensures
        res == status2_of(data@),
{
    Status2 {
        velocity: u32_from_bytes(data[0], data[1], data[2], data[3]),
        position: u32_from_bytes(data[4], data[5], data[6], data[7]),
    }
}

fn status3_from(data: &[u8; 8]) -> (res: Status3)
    ensures
        res == status3_of(data@),
{
    Status3 {
        analog_voltage: load_bits(data, 0, 10) as u16,
        analog_velocity: load_signed(data, 10, 22),
        analog_position: load_bits(data, 32, 64) as u32,
    }
}

fn status4_from(data: &[u8; 8]) -> (res: Status4)
    ensures
        res == status4_of(data@),
{
    Status4 {
        external_or_alt_encoder_velocity: u32_from_bytes(
            data[0],
            data[1],
            data[2],
            data[3],
        ),
        external_or_alt_encoder_position: u32_from_bytes(
            data[4],
            data[5],
            data[6],
            data[7],
        ),
    }
}

fn status5_from(data: &[u8; 8]) -> (res: Status5)
    ensures
        res == status5_of(data@),
{
    Status5 {
        duty_cycle_encoder_velocity: u32_from_bytes(data[0], data[1], data[2], data[3]),
        duty_cycle_encoder_position: u32_from_bytes(data[4], data[5], data[6], data[7]),
    }
}

fn status6_from(data: &[u8; 8]) -> (res: Status6)
    ensures
        res == status6_of(data@),
{
    Status6 {
        unadjusted_duty_cycle: load_bits(data, 0, 16) as u16,
        duty_cycle_period: load_bits(data, 16, 32) as u16,
        duty_cycle_no_signal: bit_at(data, 32),
        duty_cycle_reserved: load_signed(data, 33, 31),
    }
}

fn status7_from(data: &[u8; 8]) -> (res: Status7)
    ensures
        res == status7_of(data@),
{
    Status7 { i_accumulation: u32_from_bytes(data[0], data[1], data[2], data[3]) }
}

fn status8_from(data: &[u8; 8]) -> (res: Status8)
    ensures
        res == status8_of(data@),
{
    Status8 {
        setpoint: u32_from_bytes(data[0], data[1], data[2], data[3]),
        is_at_setpoint: bit_at(data, 32),
        selected_pid_slot: load_bits(data, 33, 37) as u8,
    }
}

fn status9_from(data: &[u8; 8]) -> (res: Status9)
    ensures
        res == status9_of(data@),
{
    Status9 {
        maxmotion_position_setpoint: u32_from_bytes(data[0], data[1], data[2], data[3]),
        maxmotion_velocity_setpoint: u32_from_bytes(data[4], data[5], data[6], data[7]),
    }
}

/// The status frame that one received message carries, if any.
fn status_from_message(message: &CanMessage) -> (res: Option<SparkCANFrame>)
    ensures
        res == status_of_message(message.id, message.data@),
{
    let data = &message.data;
    let base = message.id & !0x3Fu32;
    if base == 0x205B_800u32 {
        Some(SparkCANFrame::Status0(status0_from(data)))
    } else if base == 0x205B_840u32 {
        Some(SparkCANFrame::Status1(status1_from(data)))
    } else if base == 0x205B_880u32 {
        Some(SparkCANFrame::Status2(status2_from(data)))
    } else if base == 0x205B_8C0u32 {
        Some(SparkCANFrame::Status3(status3_from(data)))
    } else if base == 0x205B_900u32 {
        Some(SparkCANFrame::Status4(status4_from(data)))
    } else if base == 0x205B_940u32 {
        Some(SparkCANFrame::Status5(status5_from(data)))
    } else if base == 0x205B_980u32 {
        Some(SparkCANFrame::Status6(status6_from(data)))
    } else if base == 0x205B_9C0u32 {
        Some(SparkCANFrame::Status7(status7_from(data)))
    } else if base == 0x205B_A00u32 {
        Some(SparkCANFrame::Status8(status8_from(data)))
    } else if base == 0x205B_A40u32 {
        Some(SparkCANFrame::Status9(status9_from(data)))
    } else {
        None
    }
}

/// `message` is the message that carries `frame` to device `device_id`: the frame's base id with
/// the device id or-ed in, and the frame's payload.
pub open spec fn carries(message: CanMessage, device_id: u32, frame: SparkCANFrame) -> bool {
    &&& frame_base_id(frame) matches Some(base) && message.id == base | device_id
    &&& frame_payload(frame) matches Some(payload) && payload_word(message.data@) == payload
}

proof fn lemma_bytes_of_words(sp: u32, ff: u32)
    ensures
        word_of_bytes(
            sp as u8,
            (sp >> 8u32) as u8,
            (sp >> 16u32) as u8,
            (sp >> 24u32) as u8,
            ff as u8,
            (ff >> 8u32) as u8,
            (ff >> 16u32) as u8,
            (ff >> 24u32) as u8,
        ) == (sp as u64) | ((ff as u64) << 32u64),
{
    assert(word_of_bytes(
        sp as u8,
        (sp >> 8u32) as u8,
        (sp >> 16u32) as u8,
        (sp >> 24u32) as u8,
        ff as u8,
        (ff >> 8u32) as u8,
        (ff >> 16u32) as u8,
        (ff >> 24u32) as u8,
    ) == (sp as u64) | ((ff as u64) << 32u64)) by (bit_vector);
}

proof fn lemma_setpoint_word(sp: u32, ff: u32, slot: u8, units: u8)
    requires
        units <= 1,
    ensures
        with_bit(
            with_field((sp as u64) | ((ff as u64) << 32u64), 48, 2, slot as u64),
            50,
            units == 1,
        ) == (sp as u64) | (((ff & 0xFFFFu32) as u64) << 32u64) | (((slot & 3u8) as u64)
            << 48u64) | ((units as u64) << 50u64) | (((ff >> 19u32) as u64) << 51u64),
{
    assert(with_bit(
        with_field((sp as u64) | ((ff as u64) << 32u64), 48, 2, slot as u64),
        50,
        units == 1,
    ) == (sp as u64) | (((ff & 0xFFFFu32) as u64) << 32u64) | (((slot & 3u8) as u64) << 48u64)
        | ((units as u64) << 50u64) | (((ff >> 19u32) as u64) << 51u64)) by (bit_vector)
        requires
            units <= 1,
    ;
}

proof fn lemma_constant_payloads()
    ensures
        word_of_bytes(0, 0, 0, 0, 0, 0, 0, 0) == 0,
        word_of_bytes(0xA3, 0x3A, 0, 0, 0, 0, 0, 0) == 15011,
{
    assert(word_of_bytes(0, 0, 0, 0, 0, 0, 0, 0) == 0 && word_of_bytes(
        0xA3,
        0x3A,
        0,
        0,
        0,
        0,
        0,
        0,
    ) == 15011) by (bit_vector);
}

/// The payload of a setpoint frame.
fn setpoint_bytes(s: SparkCANSetpoint) -> (res: [u8; 8])
    ensures
        payload_word(res@) == setpoint_payload(s),
{
    let sp = s.setpoint;
    let ff = s.arb_feedforward;
    let buf: [u8; 8] = [
        sp as u8,
        (sp >> 8u32) as u8,
        (sp >> 16u32) as u8,
        (sp >> 24u32) as u8,
        ff as u8,
        (ff >> 8u32) as u8,
        (ff >> 16u32) as u8,
        (ff >> 24u32) as u8,
    ];
    proof {
        lemma_bytes_of_words(sp, ff);
    }
    let buf = store_bits(buf, 48, 50, s.pid_slot);
    let units = s.ff_units.as_u8();
    let buf = set_bit(buf, 50, units == 1);
    proof {
        lemma_setpoint_word(sp, ff, s.pid_slot, units);
    }
    buf
}

impl SparkCANFrame {
    /// Whether this frame kind has an arbitration id.
    pub fn has_arb_id(&self) -> (res: bool)
        ensures
            res == frame_base_id(*self) is Some,
    {
        match self {
            SparkCANFrame::VelocitySetpoint(_)
            | SparkCANFrame::DutyCycleSetpoint(_)
            | SparkCANFrame::PositionSetpoint(_)
            | SparkCANFrame::VoltageSetpoint(_)
            | SparkCANFrame::CurrentSetpoint(_)
            | SparkCANFrame::StopFollowerMode
            | SparkCANFrame::ClearFaults => true,
            _ => false,
        }
    }

    /// Whether this frame kind has a payload layout.
    pub fn has_payload(&self) -> (res: bool)
        ensures
            res == frame_payload(*self) is Some,
    {
        match self {
            SparkCANFrame::VelocitySetpoint(_)
            | SparkCANFrame::DutyCycleSetpoint(_)
            | SparkCANFrame::PositionSetpoint(_)
            | SparkCANFrame::VoltageSetpoint(_)
            | SparkCANFrame::CurrentSetpoint(_)
            | SparkCANFrame::ClearFaults
            | SparkCANFrame::StartFollowerMode
            | SparkCANFrame::StopFollowerMode
            | SparkCANFrame::PersistParameters => true,
            _ => false,
        }
    }

    /// The arbitration id of this frame sent to device `device_id`: the frame kind's base id
    /// with the device id or-ed in. Only the five encodable setpoint kinds, `StopFollowerMode`
    /// and `ClearFaults` have one.
    pub fn arb_id(&self, device_id: u32) -> (res: u32)
        requires
            frame_base_id(*self) is Some,
        ensures
            res == frame_base_id(*self)->0 | device_id,
            *self is VelocitySetpoint ==> res == 0x2050_000u32 | device_id,
            *self is DutyCycleSetpoint ==> res == 0x2050_080u32 | device_id,
            *self is PositionSetpoint ==> res == 0x2050_100u32 | device_id,
            *self is VoltageSetpoint ==> res == 0x2050_140u32 | device_id,
            *self is CurrentSetpoint ==> res == 0x2050_180u32 | device_id,
            *self is StopFollowerMode ==> res == 0x2057_C80u32 | device_id,
            *self is ClearFaults ==> res == 0x2051_B80u32 | device_id,
    {
        let frame_arb_id: u32 = match self {
            SparkCANFrame::VelocitySetpoint(_) => 0x2050_000,
            SparkCANFrame::DutyCycleSetpoint(_) => 0x2050_080,
            SparkCANFrame::PositionSetpoint(_) => 0x2050_100,
            SparkCANFrame::VoltageSetpoint(_) => 0x2050_140,
            SparkCANFrame::CurrentSetpoint(_) => 0x2050_180,
            SparkCANFrame::StopFollowerMode => 0x2057_C80,
            _ => 0x2051_B80,
        };
        frame_arb_id | device_id
    }

    /// The eight-byte payload of this frame, for the kinds that have a payload layout: the five
    /// encodable setpoint kinds, `ClearFaults`, `StartFollowerMode`, `StopFollowerMode` (all
    /// zero) and `PersistParameters` (the magic number 15011, little-endian).
    pub fn to_can_bytes(&self) -> (res: [u8; 8])
        requires
            frame_payload(*self) is Some,
        ensures
            payload_word(res@) == frame_payload(*self)->0,
    {
        proof {
            lemma_constant_payloads();
        }
        match *self {
            SparkCANFrame::VelocitySetpoint(frame)
            | SparkCANFrame::DutyCycleSetpoint(frame)
            | SparkCANFrame::PositionSetpoint(frame)
            | SparkCANFrame::VoltageSetpoint(frame)
            | SparkCANFrame::CurrentSetpoint(frame) => setpoint_bytes(frame),
            SparkCANFrame::ClearFaults
            | SparkCANFrame::StartFollowerMode
            | SparkCANFrame::StopFollowerMode => [0u8; 8],
            _ => [0xA3u8, 0x3Au8, 0u8, 0u8, 0u8, 0u8, 0u8, 0u8],
        }
    }
}

/// The client side of one SPARK MAX on the CAN bus: it turns requests into the messages to send
/// and received messages into frames.
pub struct CANClient {
    device_id: u32,
}

impl CANClient {
    pub closed spec fn device(&self) -> u32 {
        self.device_id
    }

    /// A client for the controller with CAN id `device_id`.
    pub fn new(device_id: u32) -> (res: Self)
        ensures
            res.device() == device_id,
    {
        CANClient { device_id }
    }

    /// The message that sends `frame` to this client's device.
    pub fn send_frame(&self, frame: SparkCANFrame) -> (res: CanMessage)
        requires
            frame_base_id(frame) is Some,
            frame_payload(frame) is Some,
        ensures
            carries(res, self.device(), frame),
    {
        CanMessage { id: frame.arb_id(self.device_id), data: frame.to_can_bytes() }
    }

    /// The heartbeat message that keeps every controller on the bus enabled: id `0x2052C80`,
    /// every payload byte 1.
    pub fn send_heartbeat() -> (res: CanMessage)
        ensures
            res.id == 0x2052_C80,
            res.data@ == seq![1u8, 1u8, 1u8, 1u8, 1u8, 1u8, 1u8, 1u8],
    {
        let res = CanMessage { id: 0x2052_C80, data: [1u8; 8] };
        assert(res.data@ =~= seq![1u8, 1u8, 1u8, 1u8, 1u8, 1u8, 1u8, 1u8]);
        res
    }

    /// The message that sets a duty-cycle setpoint. `percent` is the bit pattern of the
    /// percentage, already clamped to `-1.0 ..= 1.0`.
    pub fn duty_cycle_setpoint(
        &self,
        percent: u32,
        pid_slot: u8,
        feedforward: u32,
        feedforward_units: FeedforwardUnits,
    ) -> (res: CanMessage)
        ensures
            carries(
                res,
                self.device(),
                SparkCANFrame::DutyCycleSetpoint(
                    SparkCANSetpoint {
                        setpoint: percent,
                        arb_feedforward: feedforward,
                        pid_slot,
                        ff_units: feedforward_units,
                    },
                ),
            ),
    {
        self.send_frame(
            SparkCANFrame::DutyCycleSetpoint(
                SparkCANSetpoint {
                    setpoint: percent,
                    arb_feedforward: feedforward,
                    pid_slot,
                    ff_units: feedforward_units,
                },
            ),
        )
    }

    /// The message that sets a voltage setpoint; `voltage` is the bit pattern of the setpoint.
    pub fn voltage_setpoint(
        &self,
        voltage: u32,
        pid_slot: u8,
        feedforward: u32,
        feedforward_units: FeedforwardUnits,
    ) -> (res: CanMessage)
        ensures
            carries(
                res,
                self.device(),
                SparkCANFrame::VoltageSetpoint(
                    SparkCANSetpoint {
                        setpoint: voltage,
                        arb_feedforward: feedforward,
                        pid_slot,
                        ff_units: feedforward_units,
                    },
                ),
            ),
    {
        self.send_frame(
            SparkCANFrame::VoltageSetpoint(
                SparkCANSetpoint {
                    setpoint: voltage,
                    arb_feedforward: feedforward,
                    pid_slot,
                    ff_units: feedforward_units,
                },
            ),
        )
    }

    /// The message that sets a velocity setpoint; `velocity` is the bit pattern of the setpoint.
    pub fn velocity_setpoint(
        &self,
        velocity: u32,
        pid_slot: u8,
        feedforward: u32,
        feedforward_units: FeedforwardUnits,
    ) -> (res: CanMessage)
        ensures
            carries(
                res,
                self.device(),
                SparkCANFrame::VelocitySetpoint(
                    SparkCANSetpoint {
                        setpoint: velocity,
                        arb_feedforward: feedforward,
                        pid_slot,
                        ff_units: feedforward_units,
                    },
                ),
            ),
    {
        self.send_frame(
            SparkCANFrame::VelocitySetpoint(
                SparkCANSetpoint {
                    setpoint: velocity,
                    arb_feedforward: feedforward,
                    pid_slot,
                    ff_units: feedforward_units,
                },
            ),
        )
    }

    /// The message that sets a position setpoint; `position` is the bit pattern of the setpoint.
    pub fn position_setpoint(
        &self,
        position: u32,
        pid_slot: u8,
        feedforward: u32,
        feedforward_units: FeedforwardUnits,
    ) -> (res: CanMessage)
        ensures
            carries(
                res,
                self.device(),
                SparkCANFrame::PositionSetpoint(
                    SparkCANSetpoint {
                        setpoint: position,
                        arb_feedforward: feedforward,
                        pid_slot,
                        ff_units: feedforward_units,
                    },
                ),
            ),
    {
        self.send_frame(
            SparkCANFrame::PositionSetpoint(
                SparkCANSetpoint {
                    setpoint: position,
                    arb_feedforward: feedforward,
                    pid_slot,
                    ff_units: feedforward_units,
                },
            ),
        )
    }

    /// The message that sets a current setpoint; `current` is the bit pattern of the setpoint.
    pub fn current_setpoint(
        &self,
        current: u32,
        pid_slot: u8,
        feedforward: u32,
        feedforward_units: FeedforwardUnits,
    ) -> (res: CanMessage)
        ensures
            carries(
                res,
                self.device(),
                SparkCANFrame::CurrentSetpoint(
                    SparkCANSetpoint {
                        setpoint: current,
                        arb_feedforward: feedforward,
                        pid_slot,
                        ff_units: feedforward_units,
                    },
                ),
            ),
    {
        self.send_frame(
            SparkCANFrame::CurrentSetpoint(
                SparkCANSetpoint {
                    setpoint: current,
                    arb_feedforward: feedforward,
                    pid_slot,
                    ff_units: feedforward_units,
                },
            ),
        )
    }

    /// The message that stops follower mode.
    pub fn stop_follower_mode(&self) -> (res: CanMessage)
        ensures
            carries(res, self.device(), SparkCANFrame::StopFollowerMode),
    {
        self.send_frame(SparkCANFrame::StopFollowerMode)
    }

    /// The message that clears the controller's faults.
    pub fn clear_faults(&self) -> (res: CanMessage)
        ensures
            carries(res, self.device(), SparkCANFrame::ClearFaults),
    {
        self.send_frame(SparkCANFrame::ClearFaults)
    }

    /// The acceptance mask for the receive stream.
    pub fn create_mask(&self) -> (res: u32)
        ensures
            res == 0xFFFF_0000u32,
    {
        let res = 0u32 | 0x3Fu32 << 16u32 | 0x3Fu32 << 22u32 | 0x3Fu32 << 28u32;
        assert(0u32 | 0x3Fu32 << 16u32 | 0x3Fu32 << 22u32 | 0x3Fu32 << 28u32 == 0xFFFF_0000u32)
            by (bit_vector);
        res
    }

    /// The frames that a batch of received messages carries, in order; messages whose id is
    /// not a status id are skipped.
    pub fn read_frames(&self, messages: &Vec<CanMessage>) -> (res: Vec<SparkCANFrame>)
        ensures
            res@ == frames_of_messages(messages@),
    {
        let mut can_responses: Vec<SparkCANFrame> = Vec::new();
        let mut i: usize = 0;
        while i < messages.len()
            invariant
                i <= messages.len(),
                can_responses@ == frames_of_messages(messages@.take(i as int)),
            decreases messages.len() - i,
        {
            assert(messages@.take((i + 1) as int).drop_last() =~= messages@.take(i as int));
            match status_from_message(&messages[i]) {
                Some(frame) => can_responses.push(frame),
                None => {},
            }
            i = i + 1;
        }
        assert(messages@.take(messages.len() as int) =~= messages@);
        can_responses
    }
}

/// A setpoint frame's payload gives its fields back when read with the protocol's bit layout:
/// the setpoint from bits 0..32, the PID slot (modulo 4) from bits 48..50, the feedforward unit
/// from bit 50, and the feedforward word's bits 0..16 and 19..32 from bits 32..48 and 51..64.
pub proof fn lemma_setpoint_payload_fields(s: SparkCANSetpoint)
    ensures
        field(setpoint_payload(s), 0, 32) == s.setpoint as u64,
        field(setpoint_payload(s), 48, 2) == (s.pid_slot % 4) as u64,
        bit(setpoint_payload(s), 50) == (s.ff_units == FeedforwardUnits::DutyCycle),
        field(setpoint_payload(s), 32, 16) == (s.arb_feedforward % 0x10000) as u64,
        field(setpoint_payload(s), 51, 13) == (s.arb_feedforward / 0x80000) as u64,
{
    let sp = s.setpoint;
    let ff = s.arb_feedforward;
    let slot = s.pid_slot;
    let u = units_number(s.ff_units);
    let w = setpoint_payload(s);
    assert(u <= 1);
    assert(w == (sp as u64) | (((ff & 0xFFFFu32) as u64) << 32u64) | (((slot & 3u8) as u64)
        << 48u64) | ((u as u64) << 50u64) | (((ff >> 19u32) as u64) << 51u64));
    assert({
        let w = (sp as u64) | (((ff & 0xFFFFu32) as u64) << 32u64) | (((slot & 3u8) as u64)
            << 48u64) | ((u as u64) << 50u64) | (((ff >> 19u32) as u64) << 51u64);
        &&& field(w, 0, 32) == sp as u64
        &&& field(w, 48, 2) == (slot % 4) as u64
        &&& bit(w, 50) == (u == 1)
        &&& field(w, 32, 16) == (ff % 0x10000) as u64
        &&& field(w, 51, 13) == (ff / 0x80000) as u64
    }) by (bit_vector)
        requires
            u <= 1,
    ;
}

/// An arbitration id keeps the device id in its low six bits and the frame kind's base id above
/// them: masking a sent frame's id recovers both, for every device id below 64.
pub proof fn lemma_arb_id_splits(frame: SparkCANFrame, device_id: u32)
    requires
        frame_base_id(frame) is Some,
        device_id < 64,
    ensures
        (frame_base_id(frame)->0 | device_id) & 0x3Fu32 == device_id,
        (frame_base_id(frame)->0 | device_id) & !0x3Fu32 == frame_base_id(frame)->0,
{
    let base = frame_base_id(frame)->0;
    assert(0x2050_000u32 & 0x3Fu32 == 0 && 0x2050_080u32 & 0x3Fu32 == 0 && 0x2050_100u32 & 0x3Fu32
        == 0 && 0x2050_140u32 & 0x3Fu32 == 0 && 0x2050_180u32 & 0x3Fu32 == 0 && 0x2057_C80u32
        & 0x3Fu32 == 0 && 0x2051_B80u32 & 0x3Fu32 == 0) by (bit_vector);
    assert(base & 0x3Fu32 == 0 ==> (base | device_id) & 0x3Fu32 == device_id && (base | device_id)
        & !0x3Fu32 == base) by (bit_vector)
        requires
            device_id < 64,
    ;
}

/// The frame decoded from a received message does not depend on which device sent it: setting
/// any of the six device-id bits of the message id leaves the decoded frame unchanged.
pub proof fn lemma_status_ignores_device(id: u32, device_id: u32, data: Seq<u8>)
    requires
        device_id < 64,
    ensures
        status_of_message(id | device_id, data) == status_of_message(id, data),
{
    assert((id | device_id) & !0x3Fu32 == id & !0x3Fu32) by (bit_vector)
        requires
            device_id < 64,
    ;
}

/// Decoding a batch of messages is decoding its parts one after the other: reading the bus in
/// two batches gives the same frames, in the same order, as reading it in one.
pub proof fn lemma_frames_of_concatenation(a: Seq<CanMessage>, b: Seq<CanMessage>)
    ensures
        frames_of_messages(a + b) == frames_of_messages(a) + frames_of_messages(b),
    decreases b.len(),
{
    if b.len() == 0 {
        assert(a + b =~= a);
        assert(frames_of_messages(b) =~= Seq::<SparkCANFrame>::empty());
        assert(frames_of_messages(a) + frames_of_messages(b) =~= frames_of_messages(a));
    } else {
        lemma_frames_of_concatenation(a, b.drop_last());
        assert((a + b).drop_last() =~= a + b.drop_last());
        assert((a + b).last() == b.last());
        match status_of_message(b.last().id, b.last().data@) {
            Some(frame) => {
                assert(frames_of_messages(a) + frames_of_messages(b) =~= (frames_of_messages(a)
                    + frames_of_messages(b.drop_last())).push(frame));
            },
            None => {},
        }
    }
}

/// How the bytes of a payload make up the low fields of its little-endian word: byte `k` is
/// bits `8k .. 8k + 8`.
proof fn lemma_word_low_fields(b0: u8, b1: u8, b2: u8, b3: u8, b4: u8, b5: u8, b6: u8, b7: u8)
    by (bit_vector)
    ensures
        field(word_of_bytes(b0, b1, b2, b3, b4, b5, b6, b7), 0, 16) == (b0 as u64) + 256 * (
        b1 as u64),
        field(word_of_bytes(b0, b1, b2, b3, b4, b5, b6, b7), 16, 12) == (b2 as u64) + 256 * ((
        b3 as u64) % 16),
        field(word_of_bytes(b0, b1, b2, b3, b4, b5, b6, b7), 28, 12) == (b3 as u64) / 16 + 16 * (
        b4 as u64),
        bit(word_of_bytes(b0, b1, b2, b3, b4, b5, b6, b7), 48) == (b6 % 2 == 1),
        bit(word_of_bytes(b0, b1, b2, b3, b4, b5, b6, b7), 49) == ((b6 / 2) % 2 == 1),
        bit(word_of_bytes(b0, b1, b2, b3, b4, b5, b6, b7), 50) == ((b6 / 4) % 2 == 1),
        bit(word_of_bytes(b0, b1, b2, b3, b4, b5, b6, b7), 51) == ((b6 / 8) % 2 == 1),
        bit(word_of_bytes(b0, b1, b2, b3, b4, b5, b6, b7), 52) == ((b6 / 16) % 2 == 1),
        (1u64 << 15u64) == 32768,
        (1i64 << 16u64) == 65536,
{
}

/// A status 0 message, whatever its device id, reports: the applied output as the signed
/// 16-bit number in bytes 0-1; the bus voltage as the 12 bits after it (byte 2 and the low
/// half of byte 3); the current as the next 12 bits (the high half of byte 3 and byte 4); the
/// motor temperature as byte 5; and, in bits 0 to 4 of byte 6, the forward hard limit, the
/// forward soft limit, the reverse hard limit, the reverse soft limit and the inversion.
pub proof fn lemma_status0_payload(id: u32, data: Seq<u8>)
    requires
        data.len() == 8,
        id & !0x3Fu32 == 0x205B_800u32,
    ensures
        status_of_message(id, data) matches Some(SparkCANFrame::Status0(status)) && {
            let raw_output = data[0] + 256 * data[1];
            &&& status.applied_output == (if data[1] >= 128 {
                raw_output - 65536
            } else {
                raw_output
            })
            &&& status.voltage == data[2] + 256 * (data[3] % 16)
            &&& status.current == data[3] / 16 + 16 * data[4]
            &&& status.motor_temperature == data[5]
            &&& status.hard_forward_limit_reached == (data[6] % 2 == 1)
            &&& status.soft_forward_limit_reached == ((data[6] / 2) % 2 == 1)
            &&& status.hard_reverse_limit_reached == ((data[6] / 4) % 2 == 1)
            &&& status.soft_reverse_limit_reached == ((data[6] / 8) % 2 == 1)
            &&& status.is_inverted == ((data[6] / 16) % 2 == 1)
        },
{
    lemma_word_low_fields(data[0], data[1], data[2], data[3], data[4], data[5], data[6], data[7]);
}

/// How the bytes of a payload make up the fields of its little-endian word that the status
/// frames 1, 3, 6 and 8 read.
proof fn lemma_word_status_fields(b0: u8, b1: u8, b2: u8, b3: u8, b4: u8, b5: u8, b6: u8, b7: u8)
    by (bit_vector)
    ensures
        bit(word_of_bytes(b0, b1, b2, b3, b4, b5, b6, b7), 0) == (b0 % 2 == 1),
        bit(word_of_bytes(b0, b1, b2, b3, b4, b5, b6, b7), 1) == ((b0 / 2) % 2 == 1),
        bit(word_of_bytes(b0, b1, b2, b3, b4, b5, b6, b7), 2) == ((b0 / 4) % 2 == 1),
        bit(word_of_bytes(b0, b1, b2, b3, b4, b5, b6, b7), 3) == ((b0 / 8) % 2 == 1),
        bit(word_of_bytes(b0, b1, b2, b3, b4, b5, b6, b7), 4) == ((b0 / 16) % 2 == 1),
        bit(word_of_bytes(b0, b1, b2, b3, b4, b5, b6, b7), 5) == ((b0 / 32) % 2 == 1),
        bit(word_of_bytes(b0, b1, b2, b3, b4, b5, b6, b7), 6) == ((b0 / 64) % 2 == 1),
        bit(word_of_bytes(b0, b1, b2, b3, b4, b5, b6, b7), 7) == ((b0 / 128) % 2 == 1),
        bit(word_of_bytes(b0, b1, b2, b3, b4, b5, b6, b7), 16) == (b2 % 2 == 1),
        bit(word_of_bytes(b0, b1, b2, b3, b4, b5, b6, b7), 17) == ((b2 / 2) % 2 == 1),
        bit(word_of_bytes(b0, b1, b2, b3, b4, b5, b6, b7), 18) == ((b2 / 4) % 2 == 1),
        bit(word_of_bytes(b0, b1, b2, b3, b4, b5, b6, b7), 19) == ((b2 / 8) % 2 == 1),
        bit(word_of_bytes(b0, b1, b2, b3, b4, b5, b6, b7), 20) == ((b2 / 16) % 2 == 1),
        bit(word_of_bytes(b0, b1, b2, b3, b4, b5, b6, b7), 21) == ((b2 / 32) % 2 == 1),
        bit(word_of_bytes(b0, b1, b2, b3, b4, b5, b6, b7), 22) == ((b2 / 64) % 2 == 1),
        bit(word_of_bytes(b0, b1, b2, b3, b4, b5, b6, b7), 23) == ((b2 / 128) % 2 == 1),
        bit(word_of_bytes(b0, b1, b2, b3, b4, b5, b6, b7), 24) == (b3 % 2 == 1),
        bit(word_of_bytes(b0, b1, b2, b3, b4, b5, b6, b7), 25) == ((b3 / 2) % 2 == 1),
        bit(word_of_bytes(b0, b1, b2, b3, b4, b5, b6, b7), 26) == ((b3 / 4) % 2 == 1),
        bit(word_of_bytes(b0, b1, b2, b3, b4, b5, b6, b7), 27) == ((b3 / 8) % 2 == 1),
        bit(word_of_bytes(b0, b1, b2, b3, b4, b5, b6, b7), 28) == ((b3 / 16) % 2 == 1),
        bit(word_of_bytes(b0, b1, b2, b3, b4, b5, b6, b7), 29) == ((b3 / 32) % 2 == 1),
        bit(word_of_bytes(b0, b1, b2, b3, b4, b5, b6, b7), 30) == ((b3 / 64) % 2 == 1),
        bit(word_of_bytes(b0, b1, b2, b3, b4, b5, b6, b7), 31) == ((b3 / 128) % 2 == 1),
        bit(word_of_bytes(b0, b1, b2, b3, b4, b5, b6, b7), 40) == (b5 % 2 == 1),
        bit(word_of_bytes(b0, b1, b2, b3, b4, b5, b6, b7), 41) == ((b5 / 2) % 2 == 1),
        bit(word_of_bytes(b0, b1, b2, b3, b4, b5, b6, b7), 42) == ((b5 / 4) % 2 == 1),
        bit(word_of_bytes(b0, b1, b2, b3, b4, b5, b6, b7), 43) == ((b5 / 8) % 2 == 1),
        bit(word_of_bytes(b0, b1, b2, b3, b4, b5, b6, b7), 44) == ((b5 / 16) % 2 == 1),
        bit(word_of_bytes(b0, b1, b2, b3, b4, b5, b6, b7), 45) == ((b5 / 32) % 2 == 1),
        bit(word_of_bytes(b0, b1, b2, b3, b4, b5, b6, b7), 46) == ((b5 / 64) % 2 == 1),
        bit(word_of_bytes(b0, b1, b2, b3, b4, b5, b6, b7), 47) == ((b5 / 128) % 2 == 1),
        bit(word_of_bytes(b0, b1, b2, b3, b4, b5, b6, b7), 48) == (b6 % 2 == 1),
        field(word_of_bytes(b0, b1, b2, b3, b4, b5, b6, b7), 8, 8) == b1 as u64,
        field(word_of_bytes(b0, b1, b2, b3, b4, b5, b6, b7), 0, 10) == (b0 as u64) + 256 * ((b1 as u64) % 4),
        field(word_of_bytes(b0, b1, b2, b3, b4, b5, b6, b7), 10, 22) == (b1 as u64) / 4 + 64 * (b2 as u64) + 16384 * (b3 as u64),
        field(word_of_bytes(b0, b1, b2, b3, b4, b5, b6, b7), 32, 32) == (b4 as u64) + 256 * (b5 as u64) + 65536 * (b6 as u64) + 16777216 * (b7 as u64),
        field(word_of_bytes(b0, b1, b2, b3, b4, b5, b6, b7), 16, 16) == (b2 as u64) + 256 * (b3 as u64),
        bit(word_of_bytes(b0, b1, b2, b3, b4, b5, b6, b7), 32) == (b4 % 2 == 1),
        field(word_of_bytes(b0, b1, b2, b3, b4, b5, b6, b7), 33, 31) == (b4 as u64) / 2 + 128 * (b5 as u64) + 32768 * (b6 as u64) + 8388608 * (b7 as u64),
        field(word_of_bytes(b0, b1, b2, b3, b4, b5, b6, b7), 33, 4) == ((b4 as u64) / 2) % 16,
        (1u64 << 21u64) == 2097152,
        (1i64 << 22u64) == 4194304,
        (1u64 << 30u64) == 1073741824,
        (1i64 << 31u64) == 2147483648,
{
}

/// The `u32` of four little-endian bytes is their base-256 number.
proof fn lemma_u32_of_bytes_value(b0: u8, b1: u8, b2: u8, b3: u8)
    by (bit_vector)
    ensures
        u32_of_bytes(b0, b1, b2, b3) == (b0 as u32) + 256 * (b1 as u32) + 65536 * (b2 as u32)
            + 16777216 * (b3 as u32),
{
}

/// The unsigned number of four little-endian payload bytes starting at byte `k`.
pub open spec fn le_number(data: Seq<u8>, k: int) -> int {
    data[k] + 256 * data[k + 1] + 65536 * data[k + 2] + 16777216 * data[k + 3]
}

/// A status 1 message, whatever its device id, reports each fault and warning flag as one
/// payload bit, bit `i % 8` of byte `i / 8` for payload bit `i`: the faults in byte 0, the
/// warnings in byte 2, the sticky faults in byte 3, the sticky warnings in byte 5 and the
/// follower flag in bit 0 of byte 6; byte 1 is the reserved actives.
pub proof fn lemma_status1_payload(id: u32, data: Seq<u8>)
    requires
        data.len() == 8,
        id & !0x3Fu32 == 0x205B_840u32,
    ensures
        status_of_message(id, data) matches Some(SparkCANFrame::Status1(status)) && {
            &&& status.other_fault == (data[0] % 2 == 1)
            &&& status.motor_type_fault == ((data[0] / 2) % 2 == 1)
            &&& status.sensor_fault == ((data[0] / 4) % 2 == 1)
            &&& status.can_fault == ((data[0] / 8) % 2 == 1)
            &&& status.temperature_fault == ((data[0] / 16) % 2 == 1)
            &&& status.drv_fault == ((data[0] / 32) % 2 == 1)
            &&& status.esc_eeprom_fault == ((data[0] / 64) % 2 == 1)
            &&& status.firmware_fault == ((data[0] / 128) % 2 == 1)
            &&& status.brownout_warning == (data[2] % 2 == 1)
            &&& status.overcurrent_warning == ((data[2] / 2) % 2 == 1)
            &&& status.esc_eeprom_warning == ((data[2] / 4) % 2 == 1)
            &&& status.ext_eeprom_warning == ((data[2] / 8) % 2 == 1)
            &&& status.sensor_warning == ((data[2] / 16) % 2 == 1)
            &&& status.stall_warning == ((data[2] / 32) % 2 == 1)
            &&& status.has_reset_warning == ((data[2] / 64) % 2 == 1)
            &&& status.other_warning == ((data[2] / 128) % 2 == 1)
            &&& status.other_sticky_fault == (data[3] % 2 == 1)
            &&& status.motor_type_sticky_fault == ((data[3] / 2) % 2 == 1)
            &&& status.sensor_sticky_fault == ((data[3] / 4) % 2 == 1)
            &&& status.can_sticky_fault == ((data[3] / 8) % 2 == 1)
            &&& status.temperature_sticky_fault == ((data[3] / 16) % 2 == 1)
            &&& status.drv_sticky_fault == ((data[3] / 32) % 2 == 1)
            &&& status.esc_eeprom_sticky_fault == ((data[3] / 64) % 2 == 1)
            &&& status.firmware_sticky_fault == ((data[3] / 128) % 2 == 1)
            &&& status.brownout_sticky_warning == (data[5] % 2 == 1)
            &&& status.overcurrent_sticky_warning == ((data[5] / 2) % 2 == 1)
            &&& status.esc_eeprom_sticky_warning == ((data[5] / 4) % 2 == 1)
            &&& status.ext_eeprom_sticky_warning == ((data[5] / 8) % 2 == 1)
            &&& status.sensor_sticky_warning == ((data[5] / 16) % 2 == 1)
            &&& status.stall_sticky_warning == ((data[5] / 32) % 2 == 1)
            &&& status.has_reset_sticky_warning == ((data[5] / 64) % 2 == 1)
            &&& status.other_sticky_warning == ((data[5] / 128) % 2 == 1)
            &&& status.is_follower == (data[6] % 2 == 1)
            &&& status.reserved_actives == data[1]
        },
{
    lemma_word_status_fields(data[0], data[1], data[2], data[3], data[4], data[5], data[6], data[7]);
}

/// Status 2, 4, 5, 7, 8 and 9 messages report whole 32-bit words as four little-endian
/// bytes: the first word in bytes 0-3, the second in bytes 4-7.
pub proof fn lemma_status_words_payload(id: u32, data: Seq<u8>)
    requires
        data.len() == 8,
    ensures
        id & !0x3Fu32 == 0x205B_880u32 ==> (status_of_message(id, data) matches Some(
            SparkCANFrame::Status2(status),
        ) && status.velocity == le_number(data, 0) && status.position == le_number(data, 4)),
        id & !0x3Fu32 == 0x205B_900u32 ==> (status_of_message(id, data) matches Some(
            SparkCANFrame::Status4(status),
        ) && status.external_or_alt_encoder_velocity == le_number(data, 0)
            && status.external_or_alt_encoder_position == le_number(data, 4)),
        id & !0x3Fu32 == 0x205B_940u32 ==> (status_of_message(id, data) matches Some(
            SparkCANFrame::Status5(status),
        ) && status.duty_cycle_encoder_velocity == le_number(data, 0)
            && status.duty_cycle_encoder_position == le_number(data, 4)),
        id & !0x3Fu32 == 0x205B_9C0u32 ==> (status_of_message(id, data) matches Some(
            SparkCANFrame::Status7(status),
        ) && status.i_accumulation == le_number(data, 0)),
        id & !0x3Fu32 == 0x205B_A00u32 ==> (status_of_message(id, data) matches Some(
            SparkCANFrame::Status8(status),
        ) && status.setpoint == le_number(data, 0) && status.is_at_setpoint == (data[4] % 2 == 1)
            && status.selected_pid_slot == (data[4] / 2) % 16),
        id & !0x3Fu32 == 0x205B_A40u32 ==> (status_of_message(id, data) matches Some(
            SparkCANFrame::Status9(status),
        ) && status.maxmotion_position_setpoint == le_number(data, 0)
            && status.maxmotion_velocity_setpoint == le_number(data, 4)),
{
    lemma_word_status_fields(data[0], data[1], data[2], data[3], data[4], data[5], data[6], data[7]);
    lemma_u32_of_bytes_value(data[0], data[1], data[2], data[3]);
    lemma_u32_of_bytes_value(data[4], data[5], data[6], data[7]);
}

/// A status 3 message reports the analog voltage as the low 10 bits (byte 0 and the low two
/// bits of byte 1), the analog velocity as the signed 22-bit number after it, and the analog
/// position as the little-endian word of bytes 4-7. A status 6 message reports the unadjusted
/// duty cycle and its period as the little-endian 16-bit numbers of bytes 0-1 and 2-3, the
/// no-signal flag as bit 0 of byte 4, and the reserved value as the signed 31-bit number after
/// it.
pub proof fn lemma_status_analog_payload(id: u32, data: Seq<u8>)
    requires
        data.len() == 8,
    ensures
        id & !0x3Fu32 == 0x205B_8C0u32 ==> (status_of_message(id, data) matches Some(
            SparkCANFrame::Status3(status),
        ) && {
            let raw_velocity = data[1] / 4 + 64 * data[2] + 16384 * data[3];
            &&& status.analog_voltage == data[0] + 256 * (data[1] % 4)
            &&& status.analog_velocity == (if raw_velocity >= 2097152 {
                raw_velocity - 4194304
            } else {
                raw_velocity
            })
            &&& status.analog_position == le_number(data, 4)
        }),
        id & !0x3Fu32 == 0x205B_980u32 ==> (status_of_message(id, data) matches Some(
            SparkCANFrame::Status6(status),
        ) && {
            let raw_reserved = data[4] / 2 + 128 * data[5] + 32768 * data[6] + 8388608 * data[7];
            &&& status.unadjusted_duty_cycle == data[0] + 256 * data[1]
            &&& status.duty_cycle_period == data[2] + 256 * data[3]
            &&& status.duty_cycle_no_signal == (data[4] % 2 == 1)
            &&& status.duty_cycle_reserved == (if raw_reserved >= 1073741824 {
                raw_reserved - 2147483648
            } else {
                raw_reserved
            })
        }),
{
    lemma_word_low_fields(data[0], data[1], data[2], data[3], data[4], data[5], data[6], data[7]);
    lemma_word_status_fields(data[0], data[1], data[2], data[3], data[4], data[5], data[6], data[7]);
}

/// The base ids of the protocol: velocity `0x2050000`, duty cycle `0x2050080`, position
/// `0x2050100`, voltage `0x2050140`, current `0x2050180`, stop follower mode `0x2057C80` and
/// clear faults `0x2051B80`; no other kind is sent with one.
pub proof fn lemma_base_id_table(frame: SparkCANFrame)
    ensures
        frame is VelocitySetpoint ==> frame_base_id(frame) == Some(0x2050_000u32),
        frame is DutyCycleSetpoint ==> frame_base_id(frame) == Some(0x2050_080u32),
        frame is PositionSetpoint ==> frame_base_id(frame) == Some(0x2050_100u32),
        frame is VoltageSetpoint ==> frame_base_id(frame) == Some(0x2050_140u32),
        frame is CurrentSetpoint ==> frame_base_id(frame) == Some(0x2050_180u32),
        frame is StopFollowerMode ==> frame_base_id(frame) == Some(0x2057_C80u32),
        frame is ClearFaults ==> frame_base_id(frame) == Some(0x2051_B80u32),
        frame_base_id(frame) is Some <==> (frame is VelocitySetpoint || frame is DutyCycleSetpoint
            || frame is PositionSetpoint || frame is VoltageSetpoint || frame is CurrentSetpoint
            || frame is StopFollowerMode || frame is ClearFaults),
{
}

/// Two frames sent with the same arbitration id, for device ids that fit in the id's six
/// device bits, are of the same kind and go to the same device: no frame can be taken for
/// another kind.
pub proof fn lemma_arb_ids_distinct(a: SparkCANFrame, b: SparkCANFrame, da: u32, db: u32)
    requires
        frame_base_id(a) is Some,
        frame_base_id(b) is Some,
        da < 64,
        db < 64,
        frame_base_id(a)->0 | da == frame_base_id(b)->0 | db,
    ensures
        da == db,
        a is VelocitySetpoint <==> b is VelocitySetpoint,
        a is DutyCycleSetpoint <==> b is DutyCycleSetpoint,
        a is PositionSetpoint <==> b is PositionSetpoint,
        a is VoltageSetpoint <==> b is VoltageSetpoint,
        a is CurrentSetpoint <==> b is CurrentSetpoint,
        a is StopFollowerMode <==> b is StopFollowerMode,
        a is ClearFaults <==> b is ClearFaults,
{
    lemma_arb_id_splits(a, da);
    lemma_arb_id_splits(b, db);
}

} // verus!
