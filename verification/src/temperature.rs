//! Temperature sanity checks shared by sensor collectors and parsers.
//!
//! Temperatures are thousandths of a degree Celsius.

use vstd::prelude::*;
use crate::text::Decimal;

verus! {

/// Lowest temperature accepted from a hardware sensor (-50C).
pub const MIN_SENSOR_TEMP_MILLI_C: i64 = -50_000;

/// Highest temperature accepted from a hardware sensor (150C).
///
/// This deliberately sits well below obviously broken readings like 1000C,
/// while leaving room for real overheating events to still be reported.
pub const MAX_SENSOR_TEMP_MILLI_C: i64 = 150_000;

/// A temperature is physically plausible.
pub open spec fn plausible(value: int) -> bool {
    MIN_SENSOR_TEMP_MILLI_C <= value <= MAX_SENSOR_TEMP_MILLI_C
}

/// Return the temperature (thousandths of a degree C) only if it is
/// physically plausible.
pub fn valid_sensor_temperature_celsius(value: i64) -> (r: Option<i64>)
    ensures
        r == (if plausible(value as int) {
            Some(value)
        } else {
            None
        }),
{
    if MIN_SENSOR_TEMP_MILLI_C <= value && value <= MAX_SENSOR_TEMP_MILLI_C {
        Some(value)
    } else {
        None
    }
}

/// The value of `d` truncated toward zero to thousandths, signed.
pub open spec fn decimal_milli(d: Decimal) -> int {
    let m = d.whole * 1000 + d.milli;
    if d.negative {
        -m
    } else {
        m
    }
}

/// The temperature that the decimal `d` (in degrees C) denotes, in
/// thousandths of a degree truncated toward zero, when `d` lies within the
/// plausible range. At a bound of the range a digit beyond the thousandths
/// that is not zero takes the value outside it.
pub open spec fn decimal_temperature(d: Decimal) -> Option<i64> {
    let v = decimal_milli(d);
    if plausible(v) && (d.exact_milli || (MIN_SENSOR_TEMP_MILLI_C < v < MAX_SENSOR_TEMP_MILLI_C)) {
        Some(v as i64)
    } else {
        None
    }
}

/// [`decimal_temperature`] of `d`.
pub fn temperature_from_decimal(d: Decimal) -> (r: Option<i64>)
    requires
        d.milli < 1000,
    ensures
        r == decimal_temperature(d),
{
    if d.whole > 150 {
        return None;
    }
    let m = (d.whole * 1000 + d.milli) as i64;
    let v = if d.negative {
        -m
    } else {
        m
    };
    if MIN_SENSOR_TEMP_MILLI_C <= v && v <= MAX_SENSOR_TEMP_MILLI_C && (d.exact_milli || (
    MIN_SENSOR_TEMP_MILLI_C < v && v < MAX_SENSOR_TEMP_MILLI_C)) {
        Some(v)
    } else {
        None
    }
}

/// The temperature that a raw whole-degree counter denotes, when plausible.
pub open spec fn raw_temperature(raw: u64) -> Option<i64> {
    if raw <= 150 {
        Some((raw * 1000) as i64)
    } else {
        None
    }
}

/// [`raw_temperature`] of `raw`.
pub fn temperature_from_raw(raw: u64) -> (r: Option<i64>)
    ensures
        r == raw_temperature(raw),
{
    if raw <= 150 {
        Some((raw * 1000) as i64)
    } else {
        None
    }
}

} // verus!
