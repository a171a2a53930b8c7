//! The state of a REV SPARK MAX motor controller.

use vstd::prelude::*;

use crate::confetti::can::{
    CANClient, CanMessage, FeedforwardUnits, SparkCANFrame, SparkCANSetpoint, Status0, carries,
};

verus! {

/// How long a motor may go without an update before the watchdog stops it, in nanoseconds
/// (100 ms).
pub const WATCHDOG_TIMEOUT_NANOS: u64 = 100_000_000;

/// The duty-cycle setpoint frame that a motor sends for `percent` (an `f32` bit pattern).
pub open spec fn duty_cycle_frame(
    percent: u32,
    pid_slot: u8,
    feedforward: u32,
    units: FeedforwardUnits,
) -> SparkCANFrame {
    SparkCANFrame::DutyCycleSetpoint(
        SparkCANSetpoint {
            setpoint: percent,
            arb_feedforward: feedforward,
            pid_slot,
            ff_units: units,
        },
    )
}

/// The voltage setpoint frame that a motor sends for `volts` (an `f32` bit pattern).
pub open spec fn voltage_frame(
    volts: u32,
    pid_slot: u8,
    feedforward: u32,
    units: FeedforwardUnits,
) -> SparkCANFrame {
    SparkCANFrame::VoltageSetpoint(
        SparkCANSetpoint { setpoint: volts, arb_feedforward: feedforward, pid_slot, ff_units: units },
    )
}

/// The last status 0 among `frames`, or `current` when there is none.
pub open spec fn latest_status0(frames: Seq<SparkCANFrame>, current: Option<Status0>) -> Option<
    Status0,
>
    decreases frames.len(),
{
    if frames.len() == 0 {
        current
    } else {
        match frames.last() {
            SparkCANFrame::Status0(status) => Some(status),
            _ => latest_status0(frames.drop_last(), current),
        }
    }
}

/// Whether a motor whose last update came at `last_update_nanos` has gone longer than the
/// watchdog timeout without one at `now_nanos` (a clock reading before the update counts as
/// no time elapsed).
pub open spec fn timed_out(last_update_nanos: u64, now_nanos: u64) -> bool {
    now_nanos > last_update_nanos && now_nanos - last_update_nanos > WATCHDOG_TIMEOUT_NANOS
}

/// The state of a REV SPARK MAX motor controller: its CAN client, the last status 0 it
/// reported, the PID slot and feedforward that its setpoints carry, and the clock reading
/// (in nanoseconds) of its last update. `feedforward` is the `f32` bit pattern of the
/// feedforward word, as `SparkCANSetpoint` holds it.
pub struct SparkMAX {
    can: CANClient,
    status0: Option<Status0>,
    pid_slot: u8,
    feedforward: u32,
    feedforward_units: FeedforwardUnits,
    last_update_nanos: u64,
}

impl SparkMAX {
    pub closed spec fn device(&self) -> u32 {
        self.can.device()
    }

    pub closed spec fn last_status0(&self) -> Option<Status0> {
        self.status0
    }

    pub closed spec fn slot(&self) -> u8 {
        self.pid_slot
    }

    pub closed spec fn feedforward_word(&self) -> u32 {
        self.feedforward
    }

    pub closed spec fn units(&self) -> FeedforwardUnits {
        self.feedforward_units
    }

    pub closed spec fn last_update(&self) -> u64 {
        self.last_update_nanos
    }

    /// A controller on CAN id `port`, created at clock reading `now_nanos`, with no status
    /// yet, and the first message to send: the heartbeat. The caller fails the construction
    /// when that send fails.
    pub fn new(
        port: u32,
        pid_slot: u8,
        feedforward: u32,
        feedforward_units: FeedforwardUnits,
        now_nanos: u64,
    ) -> (res: (Self, CanMessage))
        ensures
            res.0.device() == port,
            res.0.last_status0() is None,
            res.0.slot() == pid_slot,
            res.0.feedforward_word() == feedforward,
            res.0.units() == feedforward_units,
            res.0.last_update() == now_nanos,
            res.1.id == 0x2052_C80,
            res.1.data@ == seq![1u8, 1u8, 1u8, 1u8, 1u8, 1u8, 1u8, 1u8],
    {
        let can_client = CANClient::new(port);
        let first = CANClient::send_heartbeat();
        let motor = SparkMAX {
            can: can_client,
            status0: None,
            pid_slot,
            feedforward,
            feedforward_units,
            last_update_nanos: now_nanos,
        };
        (motor, first)
    }

    /// The message that runs the motor at `percentage` of its capacity (the bit pattern of the
    /// percentage, already clamped to `-1.0 ..= 1.0`), with the motor's PID slot and
    /// feedforward. The command is an update at `now_nanos`: it restarts the watchdog.
    pub fn set_percent(&mut self, percentage: u32, now_nanos: u64) -> (res: CanMessage)
        ensures
            carries(
                res,
                old(self).device(),
                duty_cycle_frame(
                    percentage,
                    old(self).slot(),
                    old(self).feedforward_word(),
                    old(self).units(),
                ),
            ),
            final(self).last_update() == now_nanos,
            final(self).device() == old(self).device(),
            final(self).last_status0() == old(self).last_status0(),
            final(self).slot() == old(self).slot(),
            final(self).feedforward_word() == old(self).feedforward_word(),
            final(self).units() == old(self).units(),
    {
        self.last_update_nanos = now_nanos;
        self.can.duty_cycle_setpoint(
            percentage,
            self.pid_slot,
            self.feedforward,
            self.feedforward_units,
        )
    }

    /// The message that runs the motor at `volts` (a bit pattern), with the motor's PID slot
    /// and feedforward. The command is an update at `now_nanos`: it restarts the watchdog.
    pub fn set_voltage(&mut self, volts: u32, now_nanos: u64) -> (res: CanMessage)
        ensures
            carries(
                res,
                old(self).device(),
                voltage_frame(
                    volts,
                    old(self).slot(),
                    old(self).feedforward_word(),
                    old(self).units(),
                ),
            ),
            final(self).last_update() == now_nanos,
            final(self).device() == old(self).device(),
            final(self).last_status0() == old(self).last_status0(),
            final(self).slot() == old(self).slot(),
            final(self).feedforward_word() == old(self).feedforward_word(),
            final(self).units() == old(self).units(),
    {
        self.last_update_nanos = now_nanos;
        self.can.voltage_setpoint(volts, self.pid_slot, self.feedforward, self.feedforward_units)
    }

    /// The message that stops the motor: a zero duty cycle, with the motor's PID slot and
    /// feedforward. It does not count as an update.
    pub fn stop(&self) -> (res: CanMessage)
        ensures
            carries(
                res,
                self.device(),
                duty_cycle_frame(0, self.slot(), self.feedforward_word(), self.units()),
            ),
    {
        self.can.duty_cycle_setpoint(0, self.pid_slot, self.feedforward, self.feedforward_units)
    }

    /// The watchdog's decision at clock reading `now_nanos`: the stop message once the motor
    /// has gone longer than the timeout without an update, nothing before.
    pub fn check_timeout(&self, now_nanos: u64) -> (res: Option<CanMessage>)
        ensures
            !timed_out(self.last_update(), now_nanos) ==> res is None,
            timed_out(self.last_update(), now_nanos) ==> (res matches Some(m) && carries(
                m,
                self.device(),
                duty_cycle_frame(0, self.slot(), self.feedforward_word(), self.units()),
            )),
    {
        if now_nanos > self.last_update_nanos && now_nanos - self.last_update_nanos
            > WATCHDOG_TIMEOUT_NANOS {
            Some(self.stop())
        } else {
            None
        }
    }

    /// Takes in the frames received since the last call: the motor keeps the last status 0.
    /// Only status 0 frames are handled.
    pub fn periodic(&mut self, frames: &Vec<SparkCANFrame>)
        requires
            forall|i: int| 0 <= i < frames@.len() ==> frames@[i] is Status0,
        ensures
            final(self).last_status0() == latest_status0(frames@, old(self).last_status0()),
            final(self).device() == old(self).device(),
            final(self).slot() == old(self).slot(),
            final(self).feedforward_word() == old(self).feedforward_word(),
            final(self).units() == old(self).units(),
            final(self).last_update() == old(self).last_update(),
    {
        let ghost start = self.status0;
        let mut i: usize = 0;
        while i < frames.len()
            invariant
                i <= frames.len(),
                forall|j: int| 0 <= j < frames@.len() ==> frames@[j] is Status0,
                self.status0 == latest_status0(frames@.take(i as int), start),
                self.can == old(self).can,
                self.pid_slot == old(self).pid_slot,
                self.feedforward == old(self).feedforward,
                self.feedforward_units == old(self).feedforward_units,
                self.last_update_nanos == old(self).last_update_nanos,
            decreases frames.len() - i,
        {
            assert(frames@.take((i + 1) as int).drop_last() =~= frames@.take(i as int));
            match frames[i] {
                SparkCANFrame::Status0(status) => self.status0 = Some(status),
                _ => {},
            }
            i = i + 1;
        }
        assert(frames@.take(frames.len() as int) =~= frames@);
    }

    /// The last status 0 reported, if any.
    pub fn status0(&self) -> (res: Option<Status0>)
        ensures
            res == self.last_status0(),
    {
        self.status0
    }

    /// The motor temperature from the last status 0, if any.
    pub fn get_motor_temperature(&self) -> (res: Option<u8>)
        ensures
            res == match self.last_status0() {
                Some(status) => Some(status.motor_temperature),
                None => None::<u8>,
            },
    {
        match self.status0 {
            Some(status) => Some(status.motor_temperature),
            None => None,
        }
    }

    /// Whether the motor is inverted, from the last status 0, if any.
    pub fn get_inverted(&self) -> (res: Option<bool>)
        ensures
            res == match self.last_status0() {
                Some(status) => Some(status.is_inverted),
                None => None::<bool>,
            },
    {
        match self.status0 {
            Some(status) => Some(status.is_inverted),
            None => None,
        }
    }

    /// Sets the PID slot that later setpoints carry.
    pub fn set_pid_slot(&mut self, pid_slot: u8)
        ensures
            final(self).slot() == pid_slot,
            final(self).last_status0() == old(self).last_status0(),
            final(self).device() == old(self).device(),
            final(self).feedforward_word() == old(self).feedforward_word(),
            final(self).units() == old(self).units(),
            final(self).last_update() == old(self).last_update(),
    {
        self.pid_slot = pid_slot
    }
}

/// Taking in two batches of frames one after the other leaves the same status as taking in
/// both at once.
pub proof fn lemma_latest_status0_concatenation(
    a: Seq<SparkCANFrame>,
    b: Seq<SparkCANFrame>,
    current: Option<Status0>,
)
    ensures
        latest_status0(a + b, current) == latest_status0(b, latest_status0(a, current)),
    decreases b.len(),
{
    if b.len() == 0 {
        assert(a + b =~= a);
    } else {
        lemma_latest_status0_concatenation(a, b.drop_last(), current);
        assert((a + b).drop_last() =~= a + b.drop_last());
        assert((a + b).last() == b.last());
    }
}

/// An update restarts the watchdog: a motor last updated at `update_nanos` is not stopped
/// at any clock reading from then until the timeout has passed, and is stopped at every
/// reading after that.
pub proof fn lemma_update_restarts_watchdog(update_nanos: u64, now_nanos: u64)
    ensures
        update_nanos <= now_nanos <= update_nanos + WATCHDOG_TIMEOUT_NANOS ==> !timed_out(
            update_nanos,
            now_nanos,
        ),
        now_nanos > update_nanos + WATCHDOG_TIMEOUT_NANOS ==> timed_out(update_nanos, now_nanos),
{
}

} // verus!
