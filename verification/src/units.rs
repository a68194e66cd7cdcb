//! Degrees, motor steps and encoder ticks, and the conversions between them.
//!
//! Angles are fixed-point integers in thousandths of a degree. All three units
//! are tied together by two constants: encoder ticks per revolution and motor
//! steps per revolution of the output shaft.

use vstd::prelude::*;

verus! {

/// Encoder ticks for one full revolution of the output shaft.
pub const ENCODER_TICKS_PER_REV: i64 = 348_323;

/// Motor steps for one full revolution of the output shaft:
/// 25 600 steps, microstep factor 5, gear ratio 84.
pub const MOTOR_STEPS_PER_REV: i64 = 10_752_000;

/// Thousandths of a degree in one revolution.
pub const MILLIDEG_PER_REV: i64 = 360_000;

/// Azimuth of the home reference (the limit switch), in thousandths of a degree.
pub const HOME_POSITION_MDEG: i64 = 90_000;

/// Raw encoder count assigned to the home reference.
pub const HOME_ENCODER_COUNT: i64 = 87_080;

/// Largest magnitude of an angle, a step count or a tick count that the
/// conversions accept; results then always fit in 64 bits.
pub const CONVERSION_LIMIT: i64 = 100_000_000_000;

/// Absolute value of an integer.
pub open spec fn magnitude(x: int) -> int {
    if x >= 0 { x } else { -x }
}

/// `n / d` rounded toward zero, for a positive `d`.
pub open spec fn trunc_div(n: int, d: int) -> int {
    if n >= 0 { n / d } else { -((-n) / d) }
}

/// `n / d` rounded to the nearest integer, halves away from zero, for a positive `d`.
pub open spec fn round_div(n: int, d: int) -> int {
    if n >= 0 { (2 * n + d) / (2 * d) } else { -((2 * (-n) + d) / (2 * d)) }
}

/// Whether `x` lies within the range that the conversions accept.
pub open spec fn convertible(x: int) -> bool {
    -(CONVERSION_LIMIT as int) <= x <= CONVERSION_LIMIT as int
}

/// Motor steps for an angle offset, rounded toward zero.
pub open spec fn steps_for_angle(offset_mdeg: int) -> int {
    trunc_div(offset_mdeg * MOTOR_STEPS_PER_REV as int, MILLIDEG_PER_REV as int)
}

/// Motor steps for an angle offset, rounded to the nearest step.
pub open spec fn nearest_steps_for_angle(offset_mdeg: int) -> int {
    round_div(offset_mdeg * MOTOR_STEPS_PER_REV as int, MILLIDEG_PER_REV as int)
}

/// Encoder ticks for an angle offset, rounded to the nearest tick.
pub open spec fn ticks_for_angle(offset_mdeg: int) -> int {
    round_div(offset_mdeg * ENCODER_TICKS_PER_REV as int, MILLIDEG_PER_REV as int)
}

/// Motor steps for a number of encoder ticks, rounded to the nearest step.
pub open spec fn steps_for_ticks(ticks: int) -> int {
    round_div(ticks * MOTOR_STEPS_PER_REV as int, ENCODER_TICKS_PER_REV as int)
}

/// Encoder ticks for a number of motor steps, rounded to the nearest tick.
pub open spec fn ticks_for_steps(steps: int) -> int {
    round_div(steps * ENCODER_TICKS_PER_REV as int, MOTOR_STEPS_PER_REV as int)
}

/// Angle covered by a number of encoder ticks, rounded to the nearest
/// thousandth of a degree.
pub open spec fn angle_for_ticks(ticks: int) -> int {
    round_div(ticks * MILLIDEG_PER_REV as int, ENCODER_TICKS_PER_REV as int)
}

/// `x * num / den`, rounded toward zero or to nearest.
fn scale(x: i64, num: u64, den: u64, nearest: bool) -> (r: i64)
    requires
        convertible(x as int),
        0 < num <= 16_000_000,
        0 < den <= 16_000_000,
    ensures
        nearest ==> r == round_div(x * num, den as int),
        !nearest ==> r == trunc_div(x * num, den as int),
{
    let neg: bool = x < 0;
    let mag: u128 = if neg { (-x) as u128 } else { x as u128 };
    let n: u128 = num as u128;
    let d: u128 = den as u128;
    assert(mag * n <= 100_000_000_000 * 16_000_000 && mag * n >= 0) by (nonlinear_arith)
        requires 0 <= mag <= 100_000_000_000, 0 <= n <= 16_000_000;
    let prod: u128 = mag * n;
    let q: u128 = if nearest { (2 * prod + d) / (2 * d) } else { prod / d };
    proof {
        let xi: int = x as int;
        let ni: int = num as int;
        assert(neg ==> prod as int == -(xi * ni)) by (nonlinear_arith)
            requires neg ==> prod as int == (-xi) * ni;
        assert(neg ==> xi * ni < 0) by (nonlinear_arith)
            requires neg <==> xi < 0, ni > 0;
        if nearest {
            vstd::arithmetic::div_mod::lemma_fundamental_div_mod(
                (2 * prod + d) as int,
                (2 * d) as int,
            );
            assert(q <= prod + 1) by (nonlinear_arith)
                requires
                    (2 * d) * q <= 2 * prod + d,
                    d >= 1,
                    q >= 0,
                    prod >= 0,
            ;
        } else {
            vstd::arithmetic::div_mod::lemma_fundamental_div_mod(prod as int, d as int);
            assert(q <= prod) by (nonlinear_arith)
                requires d * q <= prod, d >= 1, q >= 0, prod >= 0;
        }
    }
    let r: i64 = if neg { -(q as i64) } else { q as i64 };
    r
}

/// Motor steps needed to turn the tower by `offset_mdeg`, rounded toward zero.
pub fn calculate_steps(offset_mdeg: i64) -> (steps: i64)
    requires
        convertible(offset_mdeg as int),
    ensures
        steps == steps_for_angle(offset_mdeg as int),
{
    scale(offset_mdeg, 10_752_000, 360_000, false)
}

/// Motor steps needed to turn the tower by `offset_mdeg`, rounded to the nearest step.
pub fn angle_to_motor_steps(offset_mdeg: i64) -> (steps: i64)
    requires
        convertible(offset_mdeg as int),
    ensures
        steps == nearest_steps_for_angle(offset_mdeg as int),
{
    scale(offset_mdeg, 10_752_000, 360_000, true)
}

/// Encoder ticks that correspond to an angle offset, rounded to the nearest tick.
pub fn angle_to_encoder_ticks(offset_mdeg: i64) -> (ticks: i64)
    requires
        convertible(offset_mdeg as int),
    ensures
        ticks == ticks_for_angle(offset_mdeg as int),
{
    scale(offset_mdeg, 348_323, 360_000, true)
}

/// Motor steps that correspond to a number of encoder ticks, rounded to the nearest step.
pub fn encoder_ticks_to_motor_steps(encoder_ticks: i64) -> (steps: i64)
    requires
        convertible(encoder_ticks as int),
    ensures
        steps == steps_for_ticks(encoder_ticks as int),
{
    scale(encoder_ticks, 10_752_000, 348_323, true)
}

/// Encoder ticks that correspond to a number of motor steps, rounded to the nearest tick.
pub fn motor_steps_to_encoder_ticks(steps: i64) -> (ticks: i64)
    requires
        convertible(steps as int),
    ensures
        ticks == ticks_for_steps(steps as int),
{
    scale(steps, 348_323, 10_752_000, true)
}

/// Angle, in thousandths of a degree, that a number of encoder ticks covers.
pub fn encoder_ticks_to_angle(encoder_ticks: i64) -> (mdeg: i64)
    requires
        convertible(encoder_ticks as int),
    ensures
        mdeg == angle_for_ticks(encoder_ticks as int),
{
    scale(encoder_ticks, 360_000, 348_323, true)
}

} // verus!
