use confetti::enums::{ControlWord, RobotMode};
use confetti::robot::{
    LOOP_PERIOD_NANOS, LoopPacing, PeriodicHook, Robot, RobotHook, RobotState, loop_pacing,
    periodic_hook, robot_step,
};

fn word(enabled: bool, autonomous: bool, test: bool, estop: bool) -> ControlWord {
    ControlWord { enabled, autonomous, test, estop, fms_attached: false, ds_attached: true }
}

#[test]
fn disabled_whatever_the_flags() {
    assert_eq!(RobotMode::from_control_word(&word(false, true, true, true)), RobotMode::Disabled);
    assert_eq!(RobotMode::from_control_word(&word(false, false, false, false)), RobotMode::Disabled);
}

#[test]
fn mode_precedence() {
    assert_eq!(RobotMode::from_control_word(&word(true, true, true, true)), RobotMode::Autonomous);
    assert_eq!(RobotMode::from_control_word(&word(true, false, true, true)), RobotMode::Test);
    assert_eq!(RobotMode::from_control_word(&word(true, false, false, true)), RobotMode::EStopped);
    assert_eq!(RobotMode::from_control_word(&word(true, false, false, false)), RobotMode::Teleoperated);
}

#[test]
fn hooks_per_mode() {
    assert_eq!(periodic_hook(RobotMode::Autonomous), PeriodicHook::AutonomousPeriodic);
    assert_eq!(periodic_hook(RobotMode::Teleoperated), PeriodicHook::TeleopPeriodic);
    assert_eq!(periodic_hook(RobotMode::Test), PeriodicHook::TestPeriodic);
    assert_eq!(periodic_hook(RobotMode::Disabled), PeriodicHook::DisabledPeriodic);
    assert_eq!(periodic_hook(RobotMode::EStopped), PeriodicHook::DisabledPeriodic);
}

#[test]
fn pacing_fills_the_period() {
    assert_eq!(LOOP_PERIOD_NANOS, 20_000_000);
    assert_eq!(loop_pacing(0), LoopPacing::Sleep(20_000_000));
    assert_eq!(loop_pacing(5_000_000), LoopPacing::Sleep(15_000_000));
    assert_eq!(loop_pacing(20_000_000), LoopPacing::Sleep(0));
    assert_eq!(loop_pacing(20_000_001), LoopPacing::Overrun);
}

struct Counter {
    autonomous: u32,
}

impl Robot for Counter {
    fn autonomous_periodic(&mut self) {
        self.autonomous += 1;
    }
}

#[test]
fn default_hooks_do_nothing() {
    let mut robot = Counter { autonomous: 0 };
    robot.teleop_init();
    robot.teleop_periodic();
    robot.teleop_exit();
    robot.disabled_periodic();
    robot.test_periodic();
    robot.autonomous_periodic();
    assert_eq!(robot.autonomous, 1);
    let state = RobotState { motors: vec!["left".to_string()], last_mode: Some(RobotMode::Test) };
    assert_eq!(state.motors.len(), 1);
    assert_eq!(state.last_mode, Some(RobotMode::Test));
}

#[test]
fn teleop_init_runs_once_on_entering_teleop() {
    let mut state = RobotState { motors: vec!["drive".to_string()], last_mode: None };
    assert_eq!(
        robot_step(&mut state, RobotMode::Teleoperated),
        vec![RobotHook::TeleopInit, RobotHook::Periodic(PeriodicHook::TeleopPeriodic)]
    );
    assert_eq!(state.last_mode, Some(RobotMode::Teleoperated));
    assert_eq!(
        robot_step(&mut state, RobotMode::Teleoperated),
        vec![RobotHook::Periodic(PeriodicHook::TeleopPeriodic)]
    );
    assert_eq!(state.motors, vec!["drive".to_string()]);
}

#[test]
fn leaving_teleop_runs_only_the_periodic_hook() {
    let mut state = RobotState { motors: vec![], last_mode: Some(RobotMode::Teleoperated) };
    assert_eq!(
        robot_step(&mut state, RobotMode::Disabled),
        vec![RobotHook::Periodic(PeriodicHook::DisabledPeriodic)]
    );
    assert_eq!(
        robot_step(&mut state, RobotMode::Autonomous),
        vec![RobotHook::Periodic(PeriodicHook::AutonomousPeriodic)]
    );
    assert_eq!(
        robot_step(&mut state, RobotMode::Teleoperated),
        vec![RobotHook::TeleopInit, RobotHook::Periodic(PeriodicHook::TeleopPeriodic)]
    );
    assert_eq!(state.last_mode, Some(RobotMode::Teleoperated));
}
