use confetti::can::{
    ApiClass, CANClient, FeedforwardUnits, IdleMode, ReceivedMessage, SparkCANFrame,
};

fn duty_cycle(setpoint: u32, ff: i16, slot: u8, units: FeedforwardUnits) -> SparkCANFrame {
    SparkCANFrame::DutyCycle { setpoint, arb_feedforward: ff, pid_slot: slot, ff_units: units }
}

#[test]
fn api_class_numbers() {
    assert_eq!(ApiClass::Setpoint.as_u32(), 0);
    assert_eq!(ApiClass::Control.as_u32(), 1);
    assert_eq!(ApiClass::Status.as_u32(), 46);
    assert_eq!(FeedforwardUnits::Voltage.as_u8(), 0);
    assert_eq!(FeedforwardUnits::DutyCycle.as_u8(), 1);
    assert_ne!(IdleMode::Brake, IdleMode::Coast);
}

#[test]
fn shifted_layout_arb_ids() {
    let f = duty_cycle(0, 0, 0, FeedforwardUnits::Voltage);
    assert_eq!(f.arb_id(3), 0x0200_0C0);
    let v = SparkCANFrame::Velocity { setpoint: 0, arb_feedforward: 0, pid_slot: 0, ff_units: FeedforwardUnits::Voltage };
    assert_eq!(v.arb_id(1), 0x0200_040);
    assert_eq!(SparkCANFrame::Heartbeat.arb_id(0), 0xB2);
    assert_eq!(SparkCANFrame::heartbeat(5), 0x1F2);
}

#[test]
fn heartbeat_ids_collide_for_some_devices() {
    // the heartbeat base already has bit 7 set, which the device id's bit 1 lands on
    assert_eq!(SparkCANFrame::heartbeat(0), SparkCANFrame::heartbeat(2));
}

#[test]
fn shifted_layout_payload() {
    let f = duty_cycle(0x3F00_0000, -2, 6, FeedforwardUnits::DutyCycle);
    assert_eq!(f.to_can_bytes(), [0x00, 0x00, 0x00, 0x3F, 0xFE, 0xFF, 0x06, 0x00]);
    let c = SparkCANFrame::Current { setpoint: 1, arb_feedforward: 0x0102, pid_slot: 3, ff_units: FeedforwardUnits::Voltage };
    assert_eq!(c.to_can_bytes(), [0x01, 0x00, 0x00, 0x00, 0x02, 0x01, 0x03, 0x00]);
}

#[test]
fn shifted_layout_client_messages() {
    let client = CANClient::new(2);
    let hb = client.send_heartbeat();
    assert_eq!(hb.id, 0xB2);
    assert_eq!(hb.data, vec![0u8; 8]);
    let p = client.set_percent(0x3F00_0000);
    assert_eq!(p.id, 0x0200_080);
    assert_eq!(p.data, vec![0x00, 0x00, 0x00, 0x3F]);
    let v = client.set_voltage(0x4140_0000);
    assert_eq!(v.id, 0x0200_140 | (2 << 6));
    assert_eq!(v.data, vec![0x00, 0x00, 0x40, 0x41]);
    assert_eq!(client.create_mask(), 0xFFFF_0000);
}

#[test]
fn create_arb_id_from_info_matches_arb_id() {
    let f = duty_cycle(0, 0, 0, FeedforwardUnits::Voltage);
    for device in [0u32, 1, 5, 63, 1000] {
        assert_eq!(CANClient::create_arb_id_from_info(device, f), f.arb_id(device));
    }
}

#[test]
fn shifted_layout_read_frames() {
    let client = CANClient::new(1);
    let frames = client.read_frames(&vec![
        ReceivedMessage { id: 33929216, data: [0x34, 0x12, 9, 9, 9, 9, 9, 9] },
        ReceivedMessage { id: 33929217, data: [0; 8] },
    ]);
    assert_eq!(frames.len(), 1);
    match frames[0] {
        SparkCANFrame::Status0 { applied_output, voltage, motor_temperature, is_inverted, .. } => {
            assert_eq!(applied_output, 0x1234);
            assert_eq!(voltage, 0);
            assert_eq!(motor_temperature, 0);
            assert!(!is_inverted);
        }
        _ => panic!("expected status 0"),
    }
    assert!(client.read_frames(&vec![]).is_empty());
}
