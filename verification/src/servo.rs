//! SG90 micro-servo steered by the Xbox right-stick X axis.
//!
//! A hobby servo expects a ~50 Hz pulse train whose pulse width encodes the
//! angle: ~1.5 ms centres it, with ~0.5 ms / ~2.5 ms at the travel limits. The
//! PWM counter ticks at 1 MHz, so the compare value is the pulse width in µs.
use vstd::prelude::*;
use crate::xbox::{axis_percent, trunc_div, XboxReport};

verus! {

/// PWM clock divider: the 125 MHz system clock divided down to a 1 MHz tick.
pub const PWM_DIVIDER: u8 = 125;

/// Counter TOP for a 20 ms (50 Hz) period at the 1 MHz tick.
pub const PWM_TOP: u16 = 19_999;

/// Pulse widths (µs) for the angular extremes and centre.
pub const PULSE_MIN_US: i32 = 500;

pub const PULSE_CENTRE_US: i32 = 1500;

pub const PULSE_MAX_US: i32 = 2500;

/// Largest commanded angle, degrees.
pub const ANGLE_LIMIT_DEG: i32 = 90;

/// Right-stick deadzone (percent of full scale) below which the servo is held
/// at centre.
pub const STICK_DEADZONE_PCT: i32 = 5;

/// An angle clamped to the servo's travel, -90..=90 degrees.
pub open spec fn clamped_angle(angle: int) -> int {
    if angle < -ANGLE_LIMIT_DEG {
        -ANGLE_LIMIT_DEG as int
    } else if angle > ANGLE_LIMIT_DEG {
        ANGLE_LIMIT_DEG as int
    } else {
        angle
    }
}

/// The pulse width (µs) for a commanded angle: a linear map about the centre,
/// each side scaled by its own half-span, after clamping to the travel.
pub open spec fn pulse_width(angle: int) -> int {
    let a = clamped_angle(angle);
    let half_span = if a >= 0 {
        PULSE_MAX_US - PULSE_CENTRE_US
    } else {
        PULSE_CENTRE_US - PULSE_MIN_US
    };
    PULSE_CENTRE_US + trunc_div(a * half_span, ANGLE_LIMIT_DEG as int)
}

/// The servo angle a report asks for: right-stick X scaled to +-90 degrees,
/// sign inverted so the horn follows the stick, zero inside the deadzone.
pub open spec fn stick_angle(r: XboxReport) -> int {
    let x = axis_percent(r.rx);
    if -STICK_DEADZONE_PCT <= x <= STICK_DEADZONE_PCT {
        0
    } else {
        trunc_div(-x * ANGLE_LIMIT_DEG, 100)
    }
}

/// The servo's PWM channel as the firmware programs it.
#[derive(Clone, Copy, PartialEq, Eq, Debug, Structural)]
pub struct Servo {
    /// Channel A compare value: the pulse width in µs.
    pub compare_a: u16,
}

impl Servo {
    /// The servo parked at centre (0 degrees).
    pub fn init() -> (s: Self)
        ensures
            s.compare_a == PULSE_CENTRE_US,
    {
        Servo { compare_a: PULSE_CENTRE_US as u16 }
    }

    /// Set the servo angle in degrees, clamped to +-[`ANGLE_LIMIT_DEG`]; 0 is
    /// centre.
    pub fn set_angle(&mut self, angle_deg: i32)
        ensures
            final(self).compare_a == pulse_width(angle_deg as int),
    {
        let angle = if angle_deg < -ANGLE_LIMIT_DEG {
            -ANGLE_LIMIT_DEG
        } else if angle_deg > ANGLE_LIMIT_DEG {
            ANGLE_LIMIT_DEG
        } else {
            angle_deg
        };
        let half_span = if angle >= 0 {
            PULSE_MAX_US - PULSE_CENTRE_US
        } else {
            PULSE_CENTRE_US - PULSE_MIN_US
        };
        assert(-90000 <= angle * half_span <= 90000) by (nonlinear_arith)
            requires
                -90 <= angle <= 90,
                half_span == 1000,
        ;
        let pulse = PULSE_CENTRE_US + angle * half_span / ANGLE_LIMIT_DEG;
        self.compare_a = pulse as u16;
    }

    /// Park the servo at centre (0 degrees, idle).
    pub fn centre(&mut self)
        ensures
            final(self).compare_a == PULSE_CENTRE_US,
    {
        self.set_angle(0);
    }

    /// React to one controller update: follow the stick, or recentre when no
    /// update arrived within the failsafe window (`None`).
    pub fn on_update(&mut self, update: Option<XboxReport>)
        ensures
            update matches Some(r) ==> final(self).compare_a == pulse_width(stick_angle(r)),
            update is None ==> final(self).compare_a == PULSE_CENTRE_US,
    {
        match update {
            Some(r) => self.set_angle(report_to_angle(&r)),
            None => self.centre(),
        }
    }
}

/// Map controller state to a servo angle: right-stick X, -100..100% (right is
/// positive), linearly scaled to +-[`ANGLE_LIMIT_DEG`], with a centre deadzone.
/// The sign is inverted so the servo horn follows the stick.
pub fn report_to_angle(r: &XboxReport) -> (angle: i32)
    ensures
        angle == stick_angle(*r),
{
    let x = r.rx_pct();
    if -STICK_DEADZONE_PCT <= x && x <= STICK_DEADZONE_PCT {
        0
    } else {
        -x * ANGLE_LIMIT_DEG / 100
    }
}

// ---------------------------------------------------------------------------
// Laws
// ---------------------------------------------------------------------------

/// Whatever angle is commanded, the pulse stays within the servo's
/// 500..=2500 µs travel; 0 degrees is exactly centre, and the limits map to
/// the extreme pulses.
pub proof fn lemma_pulse_range(angle: int)
    ensures
        PULSE_MIN_US <= pulse_width(angle) <= PULSE_MAX_US,
        pulse_width(0) == PULSE_CENTRE_US,
        angle >= ANGLE_LIMIT_DEG ==> pulse_width(angle) == PULSE_MAX_US,
        angle <= -ANGLE_LIMIT_DEG ==> pulse_width(angle) == PULSE_MIN_US,
{
    let a = clamped_angle(angle);
    assert(-90000 <= a * 1000 <= 90000) by (nonlinear_arith)
        requires
            -90 <= a <= 90,
    ;
}

/// A larger commanded angle never gives a shorter pulse.
pub proof fn lemma_pulse_monotone(a: int, b: int)
    requires
        a <= b,
    ensures
        pulse_width(a) <= pulse_width(b),
{
    let x = clamped_angle(a) * 1000;
    let y = clamped_angle(b) * 1000;
    assert(x <= y) by (nonlinear_arith)
        requires
            clamped_angle(a) <= clamped_angle(b),
            x == clamped_angle(a) * 1000,
            y == clamped_angle(b) * 1000,
    ;
    if x >= 0 {
        vstd::arithmetic::div_mod::lemma_div_is_ordered(x, y, 90);
    } else if y >= 0 {
    } else {
        vstd::arithmetic::div_mod::lemma_div_is_ordered(-y, -x, 90);
    }
}

/// The stick angle lies within +-90 degrees, is zero inside the deadzone, and
/// points against the stick outside it (pushing right turns the horn to the
/// negative side, pushing left to the positive side).
pub proof fn lemma_stick_angle(r: XboxReport)
    ensures
        -ANGLE_LIMIT_DEG <= stick_angle(r) <= ANGLE_LIMIT_DEG,
        -STICK_DEADZONE_PCT <= axis_percent(r.rx) <= STICK_DEADZONE_PCT ==> stick_angle(r) == 0,
        axis_percent(r.rx) > STICK_DEADZONE_PCT ==> stick_angle(r) < 0,
        axis_percent(r.rx) < -STICK_DEADZONE_PCT ==> stick_angle(r) > 0,
{
    let x = axis_percent(r.rx);
    assert(-100 <= x <= 99);
    assert(-9000 <= -x * 90 <= 9000) by (nonlinear_arith)
        requires
            -100 <= x <= 100,
    ;
    if x > 5 {
        assert(-x * 90 <= -540) by (nonlinear_arith)
            requires
                x > 5,
        ;
    }
    if x < -5 {
        assert(-x * 90 >= 540) by (nonlinear_arith)
            requires
                x < -5,
        ;
    }
}

/// Outside the deadzone the angle is linear in the stick: the stick's
/// percentage scaled by -90/100 and rounded toward zero, on both sides of
/// centre, with the largest magnitude not above the exact scaled value.
pub proof fn lemma_stick_angle_linear(r: XboxReport)
    ensures
        ({
            let x = axis_percent(r.rx);
            let a = stick_angle(r);
            &&& (x < -STICK_DEADZONE_PCT || x > STICK_DEADZONE_PCT) ==> a == trunc_div(
                -x * ANGLE_LIMIT_DEG,
                100,
            )
            &&& x > STICK_DEADZONE_PCT ==> a <= 0 && -a * 100 <= x * 90 < (-a + 1) * 100
            &&& x < -STICK_DEADZONE_PCT ==> a >= 0 && a * 100 <= -x * 90 < (a + 1) * 100
        }),
{
    let x = axis_percent(r.rx);
    crate::xbox::lemma_axis_percent_range(r.rx);
    assert(-9000 <= -x * 90 <= 9000) by (nonlinear_arith)
        requires
            -100 <= x <= 99,
    ;
    assert(-x * 90 == -(x * 90));
}

/// Opposite stick positions give opposite angles, and moving the stick right
/// never turns the horn further to the positive side.
pub proof fn lemma_stick_angle_symmetric_monotone(r1: XboxReport, r2: XboxReport)
    ensures
        axis_percent(r1.rx) == -axis_percent(r2.rx) ==> stick_angle(r1) == -stick_angle(r2),
        r1.rx <= r2.rx ==> stick_angle(r1) >= stick_angle(r2),
{
    lemma_stick_angle_linear(r1);
    lemma_stick_angle_linear(r2);
    lemma_stick_angle(r1);
    lemma_stick_angle(r2);
    let x1 = axis_percent(r1.rx);
    let x2 = axis_percent(r2.rx);
    if x1 == -x2 {
        assert(-x1 * 90 == -(-x2 * 90)) by (nonlinear_arith)
            requires
                x1 == -x2,
        ;
    }
    if r1.rx <= r2.rx {
        crate::xbox::lemma_axis_percent_monotone(r1.rx, r2.rx);
        let a = -x2 * 90;
        let b = -x1 * 90;
        assert(a <= b) by (nonlinear_arith)
            requires
                x1 <= x2,
                a == -x2 * 90,
                b == -x1 * 90,
        ;
        if a >= 0 {
            vstd::arithmetic::div_mod::lemma_div_is_ordered(a, b, 100);
        } else if b >= 0 {
        } else {
            vstd::arithmetic::div_mod::lemma_div_is_ordered(-b, -a, 100);
        }
    }
}

/// The pulse is the clamped angle scaled by 1000 µs per 90 degrees and
/// rounded toward zero, about the 1500 µs centre: mirror angles give pulses
/// mirrored about the centre.
pub proof fn lemma_pulse_linear(angle: int)
    ensures
        ({
            let c = clamped_angle(angle);
            let off = pulse_width(angle) - PULSE_CENTRE_US;
            &&& -ANGLE_LIMIT_DEG <= c <= ANGLE_LIMIT_DEG
            &&& angle <= -ANGLE_LIMIT_DEG ==> c == -ANGLE_LIMIT_DEG
            &&& angle >= ANGLE_LIMIT_DEG ==> c == ANGLE_LIMIT_DEG
            &&& -ANGLE_LIMIT_DEG <= angle <= ANGLE_LIMIT_DEG ==> c == angle
            &&& c >= 0 ==> off >= 0 && off * 90 <= c * 1000 < (off + 1) * 90
            &&& c < 0 ==> off <= 0 && -off * 90 <= -c * 1000 < (-off + 1) * 90
        }),
        pulse_width(angle) - PULSE_CENTRE_US == -(pulse_width(-angle) - PULSE_CENTRE_US),
{
    let c = clamped_angle(angle);
    assert(-90000 <= c * 1000 <= 90000) by (nonlinear_arith)
        requires
            -90 <= c <= 90,
    ;
    assert(clamped_angle(-angle) == -c);
    assert((-c) * 1000 == -(c * 1000));
}

} // verus!
