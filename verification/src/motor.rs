//! TB6612FNG dual-motor driver state, driven from the Xbox controller.
//!
//! The driver is modelled by what the firmware writes to it: the four
//! direction inputs (`AI1`/`AI2` for the right motor, `BI1`/`BI2` for the left
//! one), the standby input `STBY`, and the two PWM compare values (channel A =
//! `PWMA` = right motor, channel B = `PWMB` = left motor) of a counter that
//! wraps at [`PWM_TOP`].
use vstd::prelude::*;
use crate::xbox::{axis_percent, trunc_div, XboxReport, TRIGGER_MAX};

verus! {

/// PWM counter wraparound driving both motor channels. Duty = `compare /
/// PWM_TOP`.
pub const PWM_TOP: u16 = 4000;

/// Minimum PWM count below which the motors can't overcome stiction.
pub const PWM_MIN_DUTY_COUNT: u16 = 1200;

/// Which physical motor a command targets.
#[derive(Clone, Copy, PartialEq, Eq, Debug, Structural)]
pub enum MotorSide {
    Left,
    Right,
}

/// Direction state encoded on the AI1/AI2 (and BI1/BI2) pins.
#[derive(Clone, Copy, PartialEq, Eq, Debug, Structural)]
pub enum MotorDriveDirection {
    Forward,
    Backward,
    Halt,
}

/// A drive command. Both fields are signed `-127..127`.
#[derive(Clone, Copy, PartialEq, Eq, Debug, Structural)]
pub struct MotorDriveInfo {
    /// Forward/backward effort.
    pub throttle: i8,
    /// Steering bias: positive turns right, negative turns left.
    pub steer: i8,
}

/// Per-side direction and PWM duty count, the result of mixing a
/// [`MotorDriveInfo`].
#[derive(Clone, Copy, PartialEq, Eq, Debug, Structural)]
pub struct MotorDriveActuator {
    pub left_pwm_count: u16,
    pub right_pwm_count: u16,
    pub left_direction: MotorDriveDirection,
    pub right_direction: MotorDriveDirection,
}

/// The levels of the two inputs of one motor for a direction: the TB6612FNG
/// runs forward on (high, low), backward on (low, high) and halts when both
/// inputs are low.
pub open spec fn direction_levels(d: MotorDriveDirection) -> (bool, bool) {
    match d {
        MotorDriveDirection::Forward => (true, false),
        MotorDriveDirection::Backward => (false, true),
        MotorDriveDirection::Halt => (false, false),
    }
}

/// What the firmware drives on the motor driver's inputs.
#[derive(Clone, Copy, PartialEq, Eq, Debug, Structural)]
pub struct MotorController {
    /// Right motor direction inputs.
    pub ai1: bool,
    pub ai2: bool,
    /// Left motor direction inputs.
    pub bi1: bool,
    pub bi2: bool,
    /// Standby input; the driver's outputs are enabled while it is high.
    pub stby: bool,
    /// PWM channel A (right motor) compare value.
    pub compare_a: u16,
    /// PWM channel B (left motor) compare value.
    pub compare_b: u16,
}

impl MotorController {
    /// The driver stays enabled, and no motor ever has both inputs high (the
    /// short-brake state the firmware never uses).
    pub open spec fn wf(self) -> bool {
        &&& self.stby
        &&& !(self.ai1 && self.ai2)
        &&& !(self.bi1 && self.bi2)
    }

    /// Both motors halted and both duties zero.
    pub open spec fn is_stopped(self) -> bool {
        &&& !self.ai1 && !self.ai2 && !self.bi1 && !self.bi2
        &&& self.compare_a == 0 && self.compare_b == 0
    }

    /// The state after applying an actuator command to `self`.
    pub open spec fn driven(self, a: MotorDriveActuator) -> Self {
        MotorController {
            ai1: direction_levels(a.right_direction).0,
            ai2: direction_levels(a.right_direction).1,
            bi1: direction_levels(a.left_direction).0,
            bi2: direction_levels(a.left_direction).1,
            stby: self.stby,
            compare_a: a.right_pwm_count,
            compare_b: a.left_pwm_count,
        }
    }

    /// The state at start-up: STBY high (the TB6612FNG requires it to enable
    /// the outputs), all direction inputs low, both duties zero.
    pub fn init() -> (m: Self)
        ensures
            m.wf(),
            m.is_stopped(),
    {
        MotorController {
            ai1: false,
            ai2: false,
            bi1: false,
            bi2: false,
            stby: true,
            compare_a: 0,
            compare_b: 0,
        }
    }

    /// Drive the direction pins for one motor.
    fn apply_direction(&mut self, side: MotorSide, direction: MotorDriveDirection)
        ensures
            side == MotorSide::Left ==> (final(self).bi1, final(self).bi2) == direction_levels(
                direction,
            ) && final(self).ai1 == old(self).ai1 && final(self).ai2 == old(self).ai2,
            side == MotorSide::Right ==> (final(self).ai1, final(self).ai2) == direction_levels(
                direction,
            ) && final(self).bi1 == old(self).bi1 && final(self).bi2 == old(self).bi2,
            final(self).stby == old(self).stby,
            final(self).compare_a == old(self).compare_a,
            final(self).compare_b == old(self).compare_b,
    {
        let (pin_1, pin_2) = match direction {
            MotorDriveDirection::Forward => (true, false),
            MotorDriveDirection::Backward => (false, true),
            MotorDriveDirection::Halt => (false, false),
        };
        match side {
            MotorSide::Left => {
                self.bi1 = pin_1;
                self.bi2 = pin_2;
            },
            MotorSide::Right => {
                self.ai1 = pin_1;
                self.ai2 = pin_2;
            },
        }
    }

    /// Apply a mixed command to both motors: directions on the input pins,
    /// channel A = right duty, channel B = left duty.
    pub fn drive(&mut self, actuator: MotorDriveActuator)
        ensures
            *final(self) == old(self).driven(actuator),
            old(self).stby ==> final(self).wf(),
    {
        self.apply_direction(MotorSide::Left, actuator.left_direction);
        self.apply_direction(MotorSide::Right, actuator.right_direction);
        self.compare_a = actuator.right_pwm_count;
        self.compare_b = actuator.left_pwm_count;
    }

    /// Cut all drive: halt both direction pairs and zero both duties.
    pub fn stop(&mut self)
        ensures
            final(self).is_stopped(),
            final(self).stby == old(self).stby,
            old(self).stby ==> final(self).wf(),
    {
        self.apply_direction(MotorSide::Left, MotorDriveDirection::Halt);
        self.apply_direction(MotorSide::Right, MotorDriveDirection::Halt);
        self.compare_a = 0;
        self.compare_b = 0;
    }

    /// React to one controller update: a fresh command drives the motors; no
    /// update within the failsafe window (`None`) stops them, so a lost link
    /// halts the car instead of letting it run away.
    pub fn on_update(&mut self, update: Option<MotorDriveActuator>)
        ensures
            update matches Some(a) ==> *final(self) == old(self).driven(a),
            update is None ==> final(self).is_stopped() && final(self).stby == old(self).stby,
            old(self).stby ==> final(self).wf(),
    {
        match update {
            Some(a) => self.drive(a),
            None => self.stop(),
        }
    }
}

/// Throttle of a report: right trigger forward, left trigger reverse, scaled
/// from the trigger range to -127..127 (then narrowed to a byte).
pub open spec fn drive_throttle(r: XboxReport) -> i8 {
    trunc_div((r.rt as int - r.lt as int) * 127, 1023) as i8
}

/// Steering of a report: the right stick's X percentage scaled to -127..127.
pub open spec fn drive_steer(r: XboxReport) -> i8 {
    let s = trunc_div(axis_percent(r.rx) * 127, 100);
    (if s < -127 {
        -127
    } else if s > 127 {
        127
    } else {
        s
    }) as i8
}

/// Map controller state to a drive command: throttle = RT - LT (right trigger
/// forward, left trigger reverse), steer = right stick X.
pub fn report_to_drive(r: &XboxReport) -> (info: MotorDriveInfo)
    ensures
        info.throttle == drive_throttle(*r),
        info.steer == drive_steer(*r),
{
    let t: i32 = (r.rt as i32 - r.lt as i32) * 127 / 1023;
    let throttle = #[verifier::truncate] (t as i8);
    let scaled: i32 = r.rx_pct() * 127 / 100;
    let s: i32 = if scaled < -127 {
        -127
    } else if scaled > 127 {
        127
    } else {
        scaled
    };
    let steer = s as i8;
    MotorDriveInfo { throttle, steer }
}

// ---------------------------------------------------------------------------
// Laws
// ---------------------------------------------------------------------------

/// For any decoded report (triggers within 0..=1023), the throttle is exactly
/// the scaled trigger difference and lies in -127..=127: zero when both
/// triggers match, forward when the right trigger is pressed further, reverse
/// when the left one is; full right trigger alone gives 127. The steering
/// always lies in -127..=127.
pub proof fn lemma_drive_command_range(r: XboxReport)
    requires
        r.lt <= TRIGGER_MAX,
        r.rt <= TRIGGER_MAX,
    ensures
        drive_throttle(r) == trunc_div((r.rt as int - r.lt as int) * 127, 1023),
        -127 <= drive_throttle(r) <= 127,
        r.rt == r.lt ==> drive_throttle(r) == 0,
        r.rt > r.lt ==> drive_throttle(r) >= 0,
        r.rt < r.lt ==> drive_throttle(r) <= 0,
        r.rt == TRIGGER_MAX && r.lt == 0 ==> drive_throttle(r) == 127,
        -127 <= drive_steer(r) <= 127,
{
    let d = r.rt as int - r.lt as int;
    assert(-1023 * 127 <= d * 127 <= 1023 * 127) by (nonlinear_arith)
        requires
            -1023 <= d <= 1023,
    ;
    let q = trunc_div(d * 127, 1023);
    assert(-127 <= q <= 127);
}

/// The drive path never leaves a motor with both inputs high and never drops
/// STBY: every operation keeps the controller well formed.
pub proof fn lemma_operations_keep_wf(m: MotorController, a: MotorDriveActuator)
    requires
        m.wf(),
    ensures
        m.driven(a).wf(),
{
}

/// Steering is the right stick's percentage scaled by 127/100 and rounded
/// toward zero, with no other limit: it has the stick's sign and the largest
/// magnitude not above the exact scaled value.
pub proof fn lemma_steer_follows_stick(r: XboxReport)
    ensures
        drive_steer(r) == trunc_div(axis_percent(r.rx) * 127, 100),
        ({
            let x = axis_percent(r.rx);
            let s = drive_steer(r) as int;
            &&& x >= 0 ==> s >= 0 && s * 100 <= x * 127 < (s + 1) * 100
            &&& x < 0 ==> s <= 0 && -s * 100 <= -x * 127 < (-s + 1) * 100
        }),
{
    let x = axis_percent(r.rx);
    crate::xbox::lemma_axis_percent_range(r.rx);
    assert(-12700 <= x * 127 <= 12573) by (nonlinear_arith)
        requires
            -100 <= x <= 99,
    ;
}

/// Steering is mirror-symmetric (opposite stick percentages give opposite
/// steering) and never decreases as the stick moves right.
pub proof fn lemma_steer_symmetric_monotone(r1: XboxReport, r2: XboxReport)
    ensures
        axis_percent(r1.rx) == -axis_percent(r2.rx) ==> drive_steer(r1) == -drive_steer(r2),
        r1.rx <= r2.rx ==> drive_steer(r1) <= drive_steer(r2),
{
    lemma_steer_follows_stick(r1);
    lemma_steer_follows_stick(r2);
    let x1 = axis_percent(r1.rx);
    let x2 = axis_percent(r2.rx);
    if r1.rx <= r2.rx {
        crate::xbox::lemma_axis_percent_monotone(r1.rx, r2.rx);
        assert(x1 * 127 <= x2 * 127) by (nonlinear_arith)
            requires
                x1 <= x2,
        ;
        let a = x1 * 127;
        let b = x2 * 127;
        if a >= 0 {
            vstd::arithmetic::div_mod::lemma_div_is_ordered(a, b, 100);
        } else if b >= 0 {
        } else {
            vstd::arithmetic::div_mod::lemma_div_is_ordered(-b, -a, 100);
        }
    }
    if x1 == -x2 {
        assert(x1 * 127 == -(x2 * 127)) by (nonlinear_arith)
            requires
                x1 == -x2,
        ;
    }
}

/// The throttle is the trigger difference scaled by 127/1023 and rounded
/// toward zero: swapping the triggers reverses it.
pub proof fn lemma_throttle_mirror(r1: XboxReport, r2: XboxReport)
    requires
        r1.lt <= TRIGGER_MAX,
        r1.rt <= TRIGGER_MAX,
        r2.lt == r1.rt,
        r2.rt == r1.lt,
    ensures
        drive_throttle(r1) == -drive_throttle(r2),
        ({
            let d = (r1.rt as int - r1.lt as int) * 127;
            let t = drive_throttle(r1) as int;
            &&& d >= 0 ==> t >= 0 && t * 1023 <= d < (t + 1) * 1023
            &&& d < 0 ==> t <= 0 && -t * 1023 <= -d < (-t + 1) * 1023
        }),
{
    lemma_drive_command_range(r1);
    lemma_drive_command_range(r2);
    let d = r1.rt as int - r1.lt as int;
    assert(d * 127 == -((r2.rt as int - r2.lt as int) * 127)) by (nonlinear_arith)
        requires
            d == r1.rt as int - r1.lt as int,
            r2.rt == r1.lt,
            r2.lt == r1.rt,
    ;
}

/// How a command reaches the driver: channel A carries the right motor's
/// duty and channel B the left one's; each motor's first input is high for
/// forward, its second high for backward, and both low for halt.
pub proof fn lemma_drive_wiring(m: MotorController, a: MotorDriveActuator)
    ensures
        m.driven(a).compare_a == a.right_pwm_count,
        m.driven(a).compare_b == a.left_pwm_count,
        m.driven(a).stby == m.stby,
        a.right_direction == MotorDriveDirection::Forward ==> m.driven(a).ai1 && !m.driven(a).ai2,
        a.right_direction == MotorDriveDirection::Backward ==> !m.driven(a).ai1 && m.driven(a).ai2,
        a.right_direction == MotorDriveDirection::Halt ==> !m.driven(a).ai1 && !m.driven(a).ai2,
        a.left_direction == MotorDriveDirection::Forward ==> m.driven(a).bi1 && !m.driven(a).bi2,
        a.left_direction == MotorDriveDirection::Backward ==> !m.driven(a).bi1 && m.driven(a).bi2,
        a.left_direction == MotorDriveDirection::Halt ==> !m.driven(a).bi1 && !m.driven(a).bi2,
{
}

/// Stopping is the same as driving both motors with halt and zero duty.
pub proof fn lemma_stop_is_halted_drive(m: MotorController)
    ensures
        ({
            let halt = MotorDriveActuator {
                left_pwm_count: 0,
                right_pwm_count: 0,
                left_direction: MotorDriveDirection::Halt,
                right_direction: MotorDriveDirection::Halt,
            };
            m.driven(halt).is_stopped() && (m.is_stopped() ==> m == m.driven(halt))
        }),
{
}

} // verus!
