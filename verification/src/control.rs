//! Sensor calibration and the heater duty law.
//!
//! The regulator itself is not part of this module: it is handed the setpoint
//! and the measured temperature and answers with a signed correction. What is
//! proved here is what happens to that correction: it is added to the previous
//! duty and the sum is clamped to what the heater output accepts.

use vstd::prelude::*;

verus! {

/// Raw count at which the calibrated temperature reaches zero.
pub const SENSOR_OFFSET: u16 = 5296;

/// Raw counts per tenth of a degree.
pub const SENSOR_SLOPE: u16 = 12;

/// Milli-degrees per tenth of a degree.
pub const SENSOR_SCALE: u16 = 100;

/// Raw count that stands in for a sample the sensor failed to deliver.
pub const SENSOR_FALLBACK: u16 = 0;

/// Temperature in milli-degrees that the calibration assigns to a raw count.
pub open spec fn temp_of_raw(raw: int) -> int {
    (5296 - raw) / 12 * 100
}

/// `value` limited to the closed range from `low` to `high`.
pub open spec fn clamp_to(value: int, low: int, high: int) -> int {
    if value < low {
        low
    } else if value > high {
        high
    } else {
        value
    }
}

/// Duty that follows `duty` once the regulator has asked for `correction`.
pub open spec fn duty_after(duty: int, correction: int, max_duty: int) -> int {
    clamp_to(duty + correction, 0, max_duty)
}

/// Heater power in whole percent; an output with no range delivers none.
pub open spec fn power_percent(duty: int, max_duty: int) -> int {
    if max_duty == 0 {
        0
    } else {
        duty * 100 / max_duty
    }
}

/// The raw count of a sample, or the fallback where the sensor gave none.
pub fn sample_or_fallback(sample: Option<u16>) -> (raw: u16)
    ensures
        raw == match sample {
            Some(count) => count,
            None => SENSOR_FALLBACK,
        },
{
    match sample {
        Some(count) => count,
        None => SENSOR_FALLBACK,
    }
}

/// Converts a raw sensor count to milli-degrees.
///
/// Counts above [`SENSOR_OFFSET`] lie beyond the calibrated range and have no
/// temperature.
pub fn sensor_temp(raw: u16) -> (temp: u16)
    requires
        raw <= SENSOR_OFFSET,
    ensures
        temp == temp_of_raw(raw as int),
{
    (SENSOR_OFFSET - raw) / SENSOR_SLOPE * SENSOR_SCALE
}

/// Adds the regulator's correction to the previous duty and clamps the sum to
/// the range of the heater output.
pub fn next_duty(duty: u16, correction: i32, max_duty: u16) -> (next: u16)
    ensures
        next == duty_after(duty as int, correction as int, max_duty as int),
        next <= max_duty,
{
    let sum: i64 = duty as i64 + correction as i64;
    if sum < 0 {
        0
    } else if sum > max_duty as i64 {
        max_duty
    } else {
        sum as u16
    }
}

/// Heater power in whole percent for a duty within the output's range.
pub fn power_of_duty(duty: u16, max_duty: u16) -> (percent: u16)
    requires
        duty <= max_duty,
    ensures
        percent == power_percent(duty as int, max_duty as int),
        percent <= 100,
{
    if max_duty == 0 {
        0
    } else {
        let scaled: u32 = duty as u32 * 100;
        let percent: u32 = scaled / max_duty as u32;
        assert(percent <= 100) by (nonlinear_arith)
            requires
                percent == scaled / (max_duty as u32),
                scaled == duty * 100,
                duty <= max_duty,
                max_duty > 0,
        ;
        percent as u16
    }
}

/// The calibration is a function of the raw count alone, falls as the count
/// rises, and stays within sixteen bits over the whole calibrated range.
pub proof fn lemma_temp_of_raw(raw: int, other: int)
    requires
        0 <= raw <= other <= SENSOR_OFFSET,
    ensures
        0 <= temp_of_raw(other) <= temp_of_raw(raw) <= 44_100,
        temp_of_raw(raw) % 100 == 0,
{
}

/// The power derived from a duty within the output's range lies within 0 and
/// 100 percent.
pub proof fn lemma_power_bounded(duty: int, max_duty: int)
    requires
        0 <= duty <= max_duty,
    ensures
        0 <= power_percent(duty, max_duty) <= 100,
{
    if max_duty > 0 {
        assert(0 <= duty * 100 / max_duty <= 100) by (nonlinear_arith)
            requires
                0 <= duty <= max_duty,
                max_duty > 0,
        ;
    }
}

/// The duty follows the sign of the correction: from a duty within the
/// output's range it does not fall on a correction that is not negative, does
/// not rise on one that is not positive, and moves by the correction itself
/// wherever the sum stays within the range.
pub proof fn lemma_duty_follows_correction(duty: int, correction: int, max_duty: int)
    requires
        0 <= duty <= max_duty,
    ensures
        correction >= 0 ==> duty_after(duty, correction, max_duty) >= duty,
        correction <= 0 ==> duty_after(duty, correction, max_duty) <= duty,
        0 <= duty + correction <= max_duty ==> duty_after(duty, correction, max_duty) == duty
            + correction,
{
}

/// Whatever the correction, the next duty lies within the output's range and
/// the power derived from it within 0 and 100 percent.
pub proof fn lemma_duty_and_power_bounded(duty: int, correction: int, max_duty: int)
    requires
        0 <= max_duty,
    ensures
        0 <= duty_after(duty, correction, max_duty) <= max_duty,
        0 <= power_percent(duty_after(duty, correction, max_duty), max_duty) <= 100,
{
    lemma_power_bounded(duty_after(duty, correction, max_duty), max_duty);
}

} // verus!
