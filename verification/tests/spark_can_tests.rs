use confetti::confetti::can::{
    CANClient, CanMessage, FeedforwardUnits, SparkCANFrame, SparkCANSetpoint, Status0, Status1,
    Status2, Status3, Status6, Status8,
};

fn setpoint(setpoint: u32, feedforward: u32, pid_slot: u8, units: FeedforwardUnits) -> SparkCANSetpoint {
    SparkCANSetpoint { setpoint, arb_feedforward: feedforward, pid_slot, ff_units: units }
}

#[test]
fn arb_ids_carry_device_id() {
    let s = setpoint(0, 0, 0, FeedforwardUnits::Voltage);
    assert_eq!(SparkCANFrame::DutyCycleSetpoint(s).arb_id(7), 0x2050_087);
    assert_eq!(SparkCANFrame::VelocitySetpoint(s).arb_id(1), 0x2050_001);
    assert_eq!(SparkCANFrame::PositionSetpoint(s).arb_id(0), 0x2050_100);
    assert_eq!(SparkCANFrame::VoltageSetpoint(s).arb_id(63), 0x2050_17F);
    assert_eq!(SparkCANFrame::CurrentSetpoint(s).arb_id(2), 0x2050_182);
    assert_eq!(SparkCANFrame::StopFollowerMode.arb_id(4), 0x2057_C84);
    assert_eq!(SparkCANFrame::ClearFaults.arb_id(9), 0x2051_B89);
}

#[test]
fn arb_id_splits_into_base_and_device() {
    let id = SparkCANFrame::ClearFaults.arb_id(42);
    assert_eq!(id & 0x3F, 42);
    assert_eq!(id & !0x3F, 0x2051_B80);
}

#[test]
fn setpoint_payload_layout() {
    // 0.5 as f32 is 0x3F00_0000
    let frame = SparkCANFrame::DutyCycleSetpoint(setpoint(
        0x3F00_0000,
        0x1234_5678,
        5,
        FeedforwardUnits::DutyCycle,
    ));
    assert_eq!(frame.to_can_bytes(), [0x00, 0x00, 0x00, 0x3F, 0x78, 0x56, 0x35, 0x12]);
}

#[test]
fn setpoint_payload_clears_slot_bits() {
    let frame = SparkCANFrame::VoltageSetpoint(setpoint(
        0x4140_0000,
        0x00FF_FFFF,
        0,
        FeedforwardUnits::Voltage,
    ));
    // bits 48..51 of the feedforward word are overwritten by the slot and the unit flag
    assert_eq!(frame.to_can_bytes(), [0x00, 0x00, 0x40, 0x41, 0xFF, 0xFF, 0xF8, 0x00]);
}

#[test]
fn payloads_of_commands() {
    assert_eq!(SparkCANFrame::ClearFaults.to_can_bytes(), [0u8; 8]);
    assert_eq!(SparkCANFrame::StartFollowerMode.to_can_bytes(), [0u8; 8]);
    assert_eq!(SparkCANFrame::StopFollowerMode.to_can_bytes(), [0u8; 8]);
    assert_eq!(
        SparkCANFrame::PersistParameters.to_can_bytes(),
        [0xA3, 0x3A, 0, 0, 0, 0, 0, 0]
    );
}

#[test]
fn client_messages() {
    let client = CANClient::new(3);
    let m = client.duty_cycle_setpoint(0x3F80_0000, 1, 0, FeedforwardUnits::Voltage);
    assert_eq!(m.id, 0x2050_083);
    assert_eq!(m.data, [0x00, 0x00, 0x80, 0x3F, 0x00, 0x00, 0x01, 0x00]);
    let m = client.voltage_setpoint(0, 0, 0, FeedforwardUnits::DutyCycle);
    assert_eq!(m.id, 0x2050_143);
    assert_eq!(m.data, [0, 0, 0, 0, 0, 0, 0x04, 0]);
    assert_eq!(client.velocity_setpoint(0, 0, 0, FeedforwardUnits::Voltage).id, 0x2050_003);
    assert_eq!(client.position_setpoint(0, 0, 0, FeedforwardUnits::Voltage).id, 0x2050_103);
    assert_eq!(client.current_setpoint(0, 0, 0, FeedforwardUnits::Voltage).id, 0x2050_183);
    assert_eq!(client.stop_follower_mode().id, 0x2057_C83);
    assert_eq!(client.clear_faults(), CanMessage { id: 0x2051_B83, data: [0; 8] });
    assert_eq!(client.create_mask(), 0xFFFF_0000);
    assert_eq!(CANClient::send_heartbeat(), CanMessage { id: 0x2052_C80, data: [1; 8] });
}

#[test]
fn decodes_status0() {
    let client = CANClient::new(1);
    let data = [0xfe, 0xff, 0x23, 0x61, 0x45, 0x37, 0x15, 0x00];
    let frames = client.read_frames(&vec![CanMessage { id: 0x205B_801, data }]);
    assert_eq!(
        frames,
        vec![SparkCANFrame::Status0(Status0 {
            applied_output: -2,
            voltage: 0x123,
            current: 0x456,
            motor_temperature: 0x37,
            hard_forward_limit_reached: true,
            soft_forward_limit_reached: false,
            hard_reverse_limit_reached: true,
            soft_reverse_limit_reached: false,
            is_inverted: true,
        })]
    );
}

#[test]
fn decodes_status1_flags() {
    let client = CANClient::new(0);
    let data = [0b0000_0101, 0xAB, 0b1000_0000, 0b0000_0001, 0xFF, 0b0100_0000, 0b0000_0001, 0];
    let frames = client.read_frames(&vec![CanMessage { id: 0x205B_840, data }]);
    let s = match frames[0] {
        SparkCANFrame::Status1(s) => s,
        _ => panic!("expected status 1"),
    };
    let expected = Status1 {
        other_fault: true,
        motor_type_fault: false,
        sensor_fault: true,
        can_fault: false,
        temperature_fault: false,
        drv_fault: false,
        esc_eeprom_fault: false,
        firmware_fault: false,
        reserved_actives: 0xAB,
        brownout_warning: false,
        overcurrent_warning: false,
        esc_eeprom_warning: false,
        ext_eeprom_warning: false,
        sensor_warning: false,
        stall_warning: false,
        has_reset_warning: false,
        other_warning: true,
        other_sticky_fault: true,
        motor_type_sticky_fault: false,
        sensor_sticky_fault: false,
        can_sticky_fault: false,
        temperature_sticky_fault: false,
        drv_sticky_fault: false,
        esc_eeprom_sticky_fault: false,
        firmware_sticky_fault: false,
        brownout_sticky_warning: false,
        overcurrent_sticky_warning: false,
        esc_eeprom_sticky_warning: false,
        ext_eeprom_sticky_warning: false,
        sensor_sticky_warning: false,
        stall_sticky_warning: false,
        has_reset_sticky_warning: true,
        other_sticky_warning: false,
        is_follower: true,
    };
    assert_eq!(s, expected);
}

#[test]
fn decodes_float_words() {
    let client = CANClient::new(0);
    let data = [0x00, 0x00, 0x80, 0x3F, 0x00, 0x00, 0x00, 0xC0];
    let frames = client.read_frames(&vec![CanMessage { id: 0x205B_880, data }]);
    assert_eq!(
        frames,
        vec![SparkCANFrame::Status2(Status2 { velocity: 0x3F80_0000, position: 0xC000_0000 })]
    );
    assert_eq!(f32::from_bits(0x3F80_0000), 1.0f32);
}

#[test]
fn decodes_status3_signed_velocity() {
    let client = CANClient::new(0);
    let data = [0xff, 0x07, 0x00, 0x80, 0xef, 0xbe, 0xad, 0xde];
    let frames = client.read_frames(&vec![CanMessage { id: 0x205B_8C5, data }]);
    assert_eq!(
        frames,
        vec![SparkCANFrame::Status3(Status3 {
            analog_voltage: 0x3FF,
            analog_velocity: -2097151,
            analog_position: 0xDEAD_BEEF,
        })]
    );
}

#[test]
fn decodes_status6_and_status8() {
    let client = CANClient::new(0);
    let frames = client.read_frames(&vec![
        CanMessage { id: 0x205B_980, data: [0xcd, 0xab, 0x34, 0x12, 0xff, 0xff, 0xff, 0xff] },
        CanMessage { id: 0x205B_A00, data: [0x00, 0x00, 0x80, 0x3f, 0x17, 0x00, 0x00, 0x00] },
    ]);
    assert_eq!(
        frames,
        vec![
            SparkCANFrame::Status6(Status6 {
                unadjusted_duty_cycle: 0xABCD,
                duty_cycle_period: 0x1234,
                duty_cycle_no_signal: true,
                duty_cycle_reserved: -1,
            }),
            SparkCANFrame::Status8(Status8 {
                setpoint: 0x3F80_0000,
                is_at_setpoint: true,
                selected_pid_slot: 11,
            }),
        ]
    );
}

#[test]
fn skips_unknown_messages_and_keeps_order() {
    let client = CANClient::new(0);
    let frames = client.read_frames(&vec![
        CanMessage { id: 0, data: [0; 8] },
        CanMessage { id: 0x205B_9C0, data: [1, 2, 3, 4, 0, 0, 0, 0] },
        CanMessage { id: 0x2050_080, data: [0; 8] },
        CanMessage { id: 0x205B_A40, data: [1, 0, 0, 0, 2, 0, 0, 0] },
    ]);
    assert_eq!(frames.len(), 2);
    assert!(matches!(frames[0], SparkCANFrame::Status7(s) if s.i_accumulation == 0x0403_0201));
    assert!(matches!(frames[1], SparkCANFrame::Status9(s)
        if s.maxmotion_position_setpoint == 1 && s.maxmotion_velocity_setpoint == 2));
}

#[test]
fn decoding_ignores_device_id() {
    let client = CANClient::new(0);
    let data = [0x10, 0x20, 0x30, 0x40, 0x50, 0x60, 0x70, 0x80];
    for base in [0x205B_800u32, 0x205B_900, 0x205B_940] {
        let a = client.read_frames(&vec![CanMessage { id: base, data }]);
        let b = client.read_frames(&vec![CanMessage { id: base | 0x2A, data }]);
        assert_eq!(a, b);
        assert_eq!(a.len(), 1);
    }
    assert!(client.read_frames(&vec![CanMessage { id: 0x205B_A80, data }]).is_empty());
}

#[test]
fn setpoint_fields_read_back() {
    let s = setpoint(0xDEAD_BEEF, 0xCAFE_F00D, 7, FeedforwardUnits::DutyCycle);
    let word = u64::from_le_bytes(SparkCANFrame::PositionSetpoint(s).to_can_bytes());
    assert_eq!(word & 0xFFFF_FFFF, 0xDEAD_BEEF);
    assert_eq!((word >> 32) & 0xFFFF, 0xF00D);
    assert_eq!((word >> 48) & 0x3, 7 % 4);
    assert_eq!((word >> 50) & 0x1, 1);
    assert_eq!(word >> 51, (0xCAFE_F00Du64) >> 19);
}

#[test]
fn reading_in_two_batches_is_reading_once() {
    let client = CANClient::new(0);
    let messages = vec![
        CanMessage { id: 0x205B_880, data: [1, 2, 3, 4, 5, 6, 7, 8] },
        CanMessage { id: 0x1234, data: [0; 8] },
        CanMessage { id: 0x205B_9C1, data: [9, 9, 9, 9, 0, 0, 0, 0] },
        CanMessage { id: 0x205B_801, data: [0xFF; 8] },
    ];
    let whole = client.read_frames(&messages);
    let mut parts = client.read_frames(&messages[..2].to_vec());
    parts.extend(client.read_frames(&messages[2..].to_vec()));
    assert_eq!(whole, parts);
    assert_eq!(whole.len(), 3);
}
