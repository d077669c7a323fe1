//! The fixed piecewise-linear policy from temperature to fan duty.
//!
//! Temperatures are in millidegrees Celsius. At or below 40 °C the fan is
//! off; at or above 70 °C it runs at the full logical duty of 1024; in
//! between the duty rises linearly with a slope of 1024 / 30 per degree,
//! rounded up so that the fan is never under-driven.

use vstd::prelude::*;

verus! {

/// The temperature (millidegrees) at or below which the fan is off.
pub const LOW_MILLI: i64 = 40000;

/// The temperature (millidegrees) at or above which the fan runs at full duty.
pub const HIGH_MILLI: i64 = 70000;

/// The full duty on the logical scale.
pub const MAX_DUTY: u16 = 1024;

/// The full duty of the hardware PWM pin.
pub const MAX_PIN_DUTY: u8 = 255;

/// The duty for a temperature of `milli` millidegrees.
pub open spec fn duty_of(milli: int) -> int {
    if milli <= LOW_MILLI {
        0
    } else if milli >= HIGH_MILLI {
        MAX_DUTY as int
    } else {
        // ceiling of (milli - 40000) * 1024 / 30000
        ((milli - LOW_MILLI) * MAX_DUTY + (HIGH_MILLI - LOW_MILLI - 1)) / (HIGH_MILLI - LOW_MILLI)
    }
}

/// The logical duty scaled onto the pin's 0..=255 range (rounded up), duties
/// above the full logical duty taken as full.
pub open spec fn pin_duty_of(duty: int) -> int {
    let d = if duty > MAX_DUTY { MAX_DUTY as int } else { duty };
    (d * MAX_PIN_DUTY + (MAX_DUTY - 1)) / MAX_DUTY as int
}

/// The duty, on the 0..=1024 scale, for a temperature of `milli`
/// millidegrees Celsius.
pub fn pwm(milli: i64) -> (duty: u16)
    ensures
        duty == duty_of(milli as int),
        duty <= MAX_DUTY,
{
    if milli <= LOW_MILLI {
        0
    } else if milli >= HIGH_MILLI {
        MAX_DUTY
    } else {
        let over = (milli - LOW_MILLI) as u64;
        assert(over * 1024 < 0x1_0000_0000) by (nonlinear_arith)
            requires
                over < 30000,
        ;
        let d = (over * (MAX_DUTY as u64) + ((HIGH_MILLI - LOW_MILLI - 1) as u64)) / ((HIGH_MILLI
            - LOW_MILLI) as u64);
        proof {
            lemma_linear_part_bounded(milli as int);
        }
        d as u16
    }
}

proof fn lemma_linear_part_bounded(milli: int)
    requires
        LOW_MILLI < milli < HIGH_MILLI,
    ensures
        0 <= duty_of(milli) <= MAX_DUTY,
{
    let over = milli - LOW_MILLI;
    assert(0 <= (over * 1024 + 29999) / 30000 <= 1024) by (nonlinear_arith)
        requires
            0 < over < 30000,
    ;
}

/// Scales a logical duty onto the pin's 0..=255 range, rounding up; any duty
/// above 1024 counts as 1024.
pub fn pin_duty(duty: u16) -> (r: u8)
    ensures
        r == pin_duty_of(duty as int),
{
    let d: u32 = if duty > MAX_DUTY { MAX_DUTY as u32 } else { duty as u32 };
    let r = (d * (MAX_PIN_DUTY as u32) + ((MAX_DUTY - 1) as u32)) / (MAX_DUTY as u32);
    assert(r <= 255) by (nonlinear_arith)
        requires
            d <= 1024,
            r == (d * 255 + 1023) / 1024,
    ;
    r as u8
}

/// At or below 40 °C the fan is off.
pub proof fn lemma_cool_is_off(milli: int)
    requires
        milli <= LOW_MILLI,
    ensures
        duty_of(milli) == 0,
{
}

/// At or above 70 °C the fan runs at full duty.
pub proof fn lemma_hot_is_full(milli: int)
    requires
        milli >= HIGH_MILLI,
    ensures
        duty_of(milli) == MAX_DUTY,
{
}

/// A warmer temperature never gets a lower duty.
pub proof fn lemma_duty_monotonic(a: int, b: int)
    requires
        a <= b,
    ensures
        duty_of(a) <= duty_of(b),
{
    if LOW_MILLI < a && b < HIGH_MILLI {
        let x = a - LOW_MILLI;
        let y = b - LOW_MILLI;
        assert((x * 1024 + 29999) / 30000 <= (y * 1024 + 29999) / 30000) by (nonlinear_arith)
            requires
                0 < x <= y,
        ;
    } else if LOW_MILLI < a && a < HIGH_MILLI {
        lemma_linear_part_bounded(a);
    } else if LOW_MILLI < b && b < HIGH_MILLI {
        lemma_linear_part_bounded(b);
    }
}

/// A larger logical duty never gives a smaller pin duty.
pub proof fn lemma_pin_duty_monotonic(a: int, b: int)
    requires
        0 <= a <= b,
    ensures
        pin_duty_of(a) <= pin_duty_of(b),
{
    let da = if a > 1024 { 1024 } else { a };
    let db = if b > 1024 { 1024 } else { b };
    assert((da * 255 + 1023) / 1024 <= (db * 255 + 1023) / 1024) by (nonlinear_arith)
        requires
            0 <= da <= db,
    ;
}

} // verus!
