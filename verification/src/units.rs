//! Encoding helpers for the capability value conventions: temperature is
//! reported in tenths of a degree Celsius and humidity in tenths of a
//! percent, each rounded to the nearest tenth from the finer fixed-point
//! value a driver delivers. Particulate matter and pressure already travel
//! in their reported units and need no conversion.

use vstd::prelude::*;

verus! {

/// A fixed-point value in hundredths, rounded to the nearest tenth with
/// halves away from zero.
pub open spec fn round_to_tenths(hundredths: int) -> int {
    if hundredths >= 0 {
        (hundredths + 5) / 10
    } else {
        -((-hundredths + 5) / 10)
    }
}

/// Report a temperature, delivered in hundredths of a degree Celsius, in
/// tenths of a degree: the raw value times ten, rounded to the nearest
/// integer.
pub fn temperature_to_tenths(hundredths: i32) -> (r: i16)
    requires
        -327_675 <= hundredths <= 327_674,
    ensures
        r == round_to_tenths(hundredths as int),
{
    if hundredths >= 0 {
        ((hundredths + 5) / 10) as i16
    } else {
        (-((-hundredths + 5) / 10)) as i16
    }
}

/// Report a relative humidity, delivered in hundredths of a percent, in
/// tenths of a percent: the raw value times ten, rounded to the nearest
/// integer.
pub fn humidity_to_tenths(hundredths: u32) -> (r: u16)
    requires
        hundredths <= 655_344,
    ensures
        r == round_to_tenths(hundredths as int),
{
    ((hundredths + 5) / 10) as u16
}

} // verus!
