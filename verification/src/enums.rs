//! Robot modes and the driver-station flags that select them.

use vstd::prelude::*;

verus! {

/// The driver station's control word, as the flags that decide the robot's mode.
#[derive(Clone, Copy, Debug, PartialEq, Eq)]
pub struct ControlWord {
    pub enabled: bool,
    pub autonomous: bool,
    pub test: bool,
    pub estop: bool,
    pub fms_attached: bool,
    pub ds_attached: bool,
}

/// The mode the robot runs in.
#[derive(Clone, Copy, Debug, PartialEq, Eq)]
pub enum RobotMode {
    Disabled,
    Autonomous,
    Teleoperated,
    Test,
    EStopped,
}

impl RobotMode {
    /// The mode that a control word selects. A disabled robot is `Disabled` whatever the other
    /// flags say; an enabled one is in autonomous, then test, then emergency stop, in that order
    /// of precedence, and teleoperated when none of them is set.
    pub fn from_control_word(control_word: &ControlWord) -> (res: Self)
        ensures
            res == RobotMode::Disabled <==> !control_word.enabled,
            control_word.enabled && control_word.autonomous ==> res == RobotMode::Autonomous,
            control_word.enabled && !control_word.autonomous && control_word.test ==> res
                == RobotMode::Test,
            control_word.enabled && !control_word.autonomous && !control_word.test
                && control_word.estop ==> res == RobotMode::EStopped,
            control_word.enabled && !control_word.autonomous && !control_word.test
                && !control_word.estop ==> res == RobotMode::Teleoperated,
    {
        if !control_word.enabled {
            RobotMode::Disabled
        } else if control_word.autonomous {
            RobotMode::Autonomous
        } else if control_word.test {
            RobotMode::Test
        } else if control_word.estop {
            RobotMode::EStopped
        } else {
            RobotMode::Teleoperated
        }
    }
}

} // verus!
