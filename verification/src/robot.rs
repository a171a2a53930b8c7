//! The `Robot` trait and the decisions of the robot loop.

use vstd::prelude::*;

use crate::enums::RobotMode;

verus! {

/// What the robot loop keeps between iterations.
pub struct RobotState {
    pub motors: Vec<String>,
    pub last_mode: Option<RobotMode>,
}

/// The main robot type: implement it for your own robot and override the hooks you need.
///
/// ```ignore
/// struct MyRobot {}
///
/// impl Robot for MyRobot {
///     fn autonomous_periodic(&mut self) {
///         println!("started autonomous")
///     }
/// }
/// ```
pub trait Robot {
    /// Code to run to get the robot ready for teleoperation.
    fn teleop_init(&mut self) {
    }

    /// Runs on every loop (every 20 ms) in teleoperated mode.
    fn teleop_periodic(&mut self) {
    }

    fn teleop_exit(&mut self) {
    }

    fn disabled_periodic(&mut self) {
    }

    fn autonomous_periodic(&mut self) {
    }

    fn test_periodic(&mut self) {
    }
}

/// The periodic hook of `Robot` that a loop iteration runs.
#[derive(Clone, Copy, Debug, PartialEq, Eq)]
pub enum PeriodicHook {
    AutonomousPeriodic,
    TeleopPeriodic,
    TestPeriodic,
    DisabledPeriodic,
}

/// The periodic hook for `mode`: the mode's own hook in autonomous, teleoperated and test,
/// and `disabled_periodic` when disabled or emergency-stopped.
pub open spec fn periodic_hook_of(mode: RobotMode) -> PeriodicHook {
    match mode {
        RobotMode::Autonomous => PeriodicHook::AutonomousPeriodic,
        RobotMode::Teleoperated => PeriodicHook::TeleopPeriodic,
        RobotMode::Test => PeriodicHook::TestPeriodic,
        _ => PeriodicHook::DisabledPeriodic,
    }
}

/// The hook that the robot loop runs in `mode`: the mode's own hook in autonomous,
/// teleoperated and test, and `disabled_periodic` when disabled or emergency-stopped.
pub fn periodic_hook(mode: RobotMode) -> (res: PeriodicHook)
    ensures
        res == periodic_hook_of(mode),
        mode == RobotMode::Autonomous ==> res == PeriodicHook::AutonomousPeriodic,
        mode == RobotMode::Teleoperated ==> res == PeriodicHook::TeleopPeriodic,
        mode == RobotMode::Test ==> res == PeriodicHook::TestPeriodic,
        mode == RobotMode::Disabled || mode == RobotMode::EStopped ==> res
            == PeriodicHook::DisabledPeriodic,
{
    match mode {
        RobotMode::Autonomous => PeriodicHook::AutonomousPeriodic,
        RobotMode::Teleoperated => PeriodicHook::TeleopPeriodic,
        RobotMode::Test => PeriodicHook::TestPeriodic,
        _ => PeriodicHook::DisabledPeriodic,
    }
}

/// A hook of `Robot` that a loop iteration runs.
#[derive(Clone, Copy, Debug, PartialEq, Eq)]
pub enum RobotHook {
    TeleopInit,
    Periodic(PeriodicHook),
}

/// Whether the loop enters teleoperation: the mode is teleoperated and the last one was not
/// (or there was none).
pub open spec fn enters_teleop(last_mode: Option<RobotMode>, mode: RobotMode) -> bool {
    mode == RobotMode::Teleoperated && last_mode != Some(RobotMode::Teleoperated)
}

/// The hooks of one loop iteration in `mode` after `last_mode`, in order: `teleop_init` on
/// entering teleoperation, then the mode's periodic hook, the one periodic call of the
/// iteration.
pub open spec fn step_hooks(last_mode: Option<RobotMode>, mode: RobotMode) -> Seq<RobotHook> {
    (if enters_teleop(last_mode, mode) {
        seq![RobotHook::TeleopInit]
    } else {
        Seq::empty()
    }) + seq![RobotHook::Periodic(periodic_hook_of(mode))]
}

/// One iteration of the robot loop in `mode`: the hooks to run, in order, and the mode kept
/// as the last one for the next iteration.
pub fn robot_step(state: &mut RobotState, mode: RobotMode) -> (res: Vec<RobotHook>)
    ensures
        res@ == step_hooks(old(state).last_mode, mode),
        final(state).last_mode == Some(mode),
        final(state).motors@ == old(state).motors@,
{
    let was_teleop = match state.last_mode {
        Some(RobotMode::Teleoperated) => true,
        _ => false,
    };
    let is_teleop = match mode {
        RobotMode::Teleoperated => true,
        _ => false,
    };
    let mut hooks: Vec<RobotHook> = Vec::new();
    if is_teleop && !was_teleop {
        hooks.push(RobotHook::TeleopInit);
    }
    let periodic = periodic_hook(mode);
    hooks.push(RobotHook::Periodic(periodic));
    state.last_mode = Some(mode);
    assert(hooks@ =~= step_hooks(old(state).last_mode, mode));
    hooks
}

/// `teleop_init` runs once per entry into teleoperation: an iteration that enters it runs
/// `teleop_init` before `teleop_periodic`, and a following iteration that stays in it runs
/// `teleop_periodic` alone. Every iteration makes exactly one periodic call, its last hook.
pub proof fn lemma_teleop_init_once(last_mode: Option<RobotMode>, mode: RobotMode)
    ensures
        last_mode != Some(RobotMode::Teleoperated) ==> step_hooks(
            last_mode,
            RobotMode::Teleoperated,
        ) == seq![RobotHook::TeleopInit, RobotHook::Periodic(PeriodicHook::TeleopPeriodic)],
        step_hooks(Some(RobotMode::Teleoperated), RobotMode::Teleoperated) == seq![
            RobotHook::Periodic(PeriodicHook::TeleopPeriodic),
        ],
        step_hooks(last_mode, mode).last() == RobotHook::Periodic(periodic_hook_of(mode)),
        forall|i: int|
            0 <= i < step_hooks(last_mode, mode).len() - 1 ==> step_hooks(last_mode, mode)[i]
                == RobotHook::TeleopInit,
{
    assert(step_hooks(Some(RobotMode::Teleoperated), RobotMode::Teleoperated) =~= seq![
        RobotHook::Periodic(PeriodicHook::TeleopPeriodic),
    ]);
    if last_mode != Some(RobotMode::Teleoperated) {
        assert(step_hooks(last_mode, RobotMode::Teleoperated) =~= seq![
            RobotHook::TeleopInit,
            RobotHook::Periodic(PeriodicHook::TeleopPeriodic),
        ]);
    }
}

/// `teleop_init` is for teleoperation only: an iteration in any other mode runs that mode's
/// periodic hook and nothing else, and each iteration's one periodic hook is the mode's own
/// (`disabled_periodic` when disabled or emergency-stopped).
pub proof fn lemma_teleop_init_only_in_teleop(last_mode: Option<RobotMode>, mode: RobotMode)
    ensures
        step_hooks(last_mode, mode).contains(RobotHook::TeleopInit) ==> mode
            == RobotMode::Teleoperated,
        mode != RobotMode::Teleoperated ==> step_hooks(last_mode, mode) == seq![
            RobotHook::Periodic(periodic_hook_of(mode)),
        ],
        mode == RobotMode::Autonomous ==> step_hooks(last_mode, mode).last() == RobotHook::Periodic(
            PeriodicHook::AutonomousPeriodic,
        ),
        mode == RobotMode::Teleoperated ==> step_hooks(last_mode, mode).last()
            == RobotHook::Periodic(PeriodicHook::TeleopPeriodic),
        mode == RobotMode::Test ==> step_hooks(last_mode, mode).last() == RobotHook::Periodic(
            PeriodicHook::TestPeriodic,
        ),
        mode == RobotMode::Disabled || mode == RobotMode::EStopped ==> step_hooks(
            last_mode,
            mode,
        ).last() == RobotHook::Periodic(PeriodicHook::DisabledPeriodic),
{
    let hooks = step_hooks(last_mode, mode);
    if mode != RobotMode::Teleoperated {
        assert(hooks =~= seq![RobotHook::Periodic(periodic_hook_of(mode))]);
    }
    if hooks.contains(RobotHook::TeleopInit) {
        let i = choose|i: int| 0 <= i < hooks.len() && hooks[i] == RobotHook::TeleopInit;
        if mode != RobotMode::Teleoperated {
            assert(hooks[i] == RobotHook::Periodic(periodic_hook_of(mode)));
        }
    }
}

/// The period of the robot loop, in nanoseconds (20 ms).
pub const LOOP_PERIOD_NANOS: u64 = 20_000_000;

/// What the robot loop does at the end of an iteration.
#[derive(Clone, Copy, Debug, PartialEq, Eq)]
pub enum LoopPacing {
    /// The iteration took longer than the period: report an overrun and go on at once.
    Overrun,
    /// Sleep this many nanoseconds before the next iteration.
    Sleep(u64),
}

/// The pacing after an iteration that took `elapsed_nanos`: an overrun when it took longer than
/// the period, otherwise a sleep for what is left of the period.
pub fn loop_pacing(elapsed_nanos: u64) -> (res: LoopPacing)
    ensures
        elapsed_nanos > LOOP_PERIOD_NANOS ==> res == LoopPacing::Overrun,
        elapsed_nanos <= LOOP_PERIOD_NANOS ==> res == LoopPacing::Sleep(
            (LOOP_PERIOD_NANOS - elapsed_nanos) as u64,
        ),
{
    if elapsed_nanos > LOOP_PERIOD_NANOS {
        LoopPacing::Overrun
    } else {
        LoopPacing::Sleep(LOOP_PERIOD_NANOS - elapsed_nanos)
    }
}

} // verus!
