use confetti::confetti::can::{FeedforwardUnits, SparkCANFrame, Status0};
use confetti::confetti::motor::{SparkMAX, WATCHDOG_TIMEOUT_NANOS};

fn status(temperature: u8, inverted: bool) -> Status0 {
    Status0 {
        applied_output: 0,
        voltage: 0,
        current: 0,
        motor_temperature: temperature,
        hard_forward_limit_reached: false,
        hard_reverse_limit_reached: false,
        soft_forward_limit_reached: false,
        soft_reverse_limit_reached: false,
        is_inverted: inverted,
    }
}

#[test]
fn new_motor_sends_heartbeat() {
    let (motor, first) = SparkMAX::new(4, 2, 0x1234_5678, FeedforwardUnits::Voltage, 0);
    assert_eq!(first.id, 0x2052_C80);
    assert_eq!(first.data, [1u8; 8]);
    assert_eq!(motor.status0(), None);
    assert_eq!(motor.get_motor_temperature(), None);
    assert_eq!(motor.get_inverted(), None);
}

#[test]
fn setpoints_carry_slot_and_feedforward() {
    let (mut motor, _) = SparkMAX::new(1, 0, 0x1234_5678, FeedforwardUnits::Voltage, 0);
    let m = motor.set_percent(0x3F00_0000, 5);
    assert_eq!(m.id, 0x2050_081);
    assert_eq!(m.data, [0, 0, 0, 0x3F, 0x78, 0x56, 0x30, 0x12]);
    motor.set_pid_slot(3);
    let m = motor.set_voltage(0x4140_0000, 6);
    assert_eq!(m.id, 0x2050_141);
    assert_eq!(m.data, [0, 0, 0x40, 0x41, 0x78, 0x56, 0x33, 0x12]);
    let s = motor.stop();
    assert_eq!(s.id, 0x2050_081);
    assert_eq!(s.data, [0, 0, 0, 0, 0x78, 0x56, 0x33, 0x12]);
}

#[test]
fn watchdog_stops_after_timeout() {
    let (motor, _) = SparkMAX::new(1, 0, 0, FeedforwardUnits::DutyCycle, 0);
    assert_eq!(WATCHDOG_TIMEOUT_NANOS, 100_000_000);
    assert!(motor.check_timeout(0).is_none());
    assert!(motor.check_timeout(100_000_000).is_none());
    let stop = motor.check_timeout(100_000_001).expect("stop message");
    assert_eq!(stop, motor.stop());
}

#[test]
fn update_restarts_watchdog() {
    let (mut motor, _) = SparkMAX::new(1, 0, 0, FeedforwardUnits::DutyCycle, 1_000);
    assert!(motor.check_timeout(100_001_001).is_some());
    motor.set_percent(0x3F00_0000, 90_000_000);
    assert!(motor.check_timeout(100_001_001).is_none());
    assert!(motor.check_timeout(190_000_000).is_none());
    assert!(motor.check_timeout(190_000_001).is_some());
    motor.set_voltage(0x4140_0000, 200_000_000);
    assert!(motor.check_timeout(300_000_000).is_none());
    assert!(motor.check_timeout(300_000_001).is_some());
}

#[test]
fn watchdog_counts_no_time_before_the_update() {
    let (motor, _) = SparkMAX::new(1, 0, 0, FeedforwardUnits::DutyCycle, 500_000_000);
    assert!(motor.check_timeout(0).is_none());
    assert!(motor.check_timeout(600_000_000).is_none());
    assert!(motor.check_timeout(600_000_001).is_some());
}

#[test]
fn periodic_keeps_the_last_status() {
    let (mut motor, _) = SparkMAX::new(1, 0, 0, FeedforwardUnits::DutyCycle, 0);
    motor.periodic(&vec![]);
    assert_eq!(motor.get_motor_temperature(), None);
    motor.periodic(&vec![
        SparkCANFrame::Status0(status(30, false)),
        SparkCANFrame::Status0(status(41, true)),
    ]);
    assert_eq!(motor.get_motor_temperature(), Some(41));
    assert_eq!(motor.get_inverted(), Some(true));
    motor.periodic(&vec![]);
    assert_eq!(motor.status0(), Some(status(41, true)));
}

#[test]
fn periodic_in_two_batches_is_periodic_once() {
    let frames = vec![
        SparkCANFrame::Status0(status(20, false)),
        SparkCANFrame::Status0(status(21, true)),
        SparkCANFrame::Status0(status(22, false)),
    ];
    let (mut once, _) = SparkMAX::new(1, 0, 0, FeedforwardUnits::DutyCycle, 0);
    once.periodic(&frames);
    let (mut twice, _) = SparkMAX::new(1, 0, 0, FeedforwardUnits::DutyCycle, 0);
    twice.periodic(&frames[..1].to_vec());
    twice.periodic(&frames[1..].to_vec());
    assert_eq!(once.status0(), twice.status0());
    assert_eq!(twice.get_motor_temperature(), Some(22));
}
