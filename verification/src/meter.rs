//! Arithmetic of the voltage telemetry and lamp dimming around the panel:
//! scaling a raw sample against the reference-voltage sample, splitting a
//! millivolt reading into decimal digits for the display, and clamping the
//! dimming divider into a PWM duty.
//!
//! Sampling itself, the serial port and the PWM peripheral belong to the
//! bring-up layer; these are the exact formulas it applies to the values.

use vstd::prelude::*;

verus! {

/// Embedded reference voltage, in millivolts.
pub const VREFINT_MV: u32 = 1200;

/// Millivolts of a raw sample, scaled so that `vrefint_sample` reads as
/// [`VREFINT_MV`]; the 32-bit quotient is truncated to 16 bits.
pub fn convert_to_millivolts(sample: u16, vrefint_sample: u16) -> (r: u16)
    requires
        vrefint_sample > 0,
    ensures
        r == (sample as int * VREFINT_MV / vrefint_sample as int) % 0x10000,
{
    let wide: u32 = (sample as u32) * VREFINT_MV / (vrefint_sample as u32);
    proof {
        assert((wide as u16) as int == wide as int % 0x10000) by (bit_vector);
    }
    #[verifier::truncate] (wide as u16)
}

/// The thousands, hundreds and tens digits of a millivolt reading, for the
/// three display slots that show it.
pub fn millivolt_digits(v: u16) -> (r: (usize, usize, usize))
    requires
        v < 10000,
    ensures
        r.0 == v / 1000,
        r.1 == (v / 100) % 10,
        r.2 == (v / 10) % 10,
        r.0 <= 9 && r.1 <= 9 && r.2 <= 9,
{
    let a: usize = (v / 1000) as usize;
    let b: usize = ((v / 100) % 10) as usize;
    let c: usize = ((v / 10) % 10) as usize;
    (a, b, c)
}

/// The dimming divider derived from a millivolt reading.
pub fn duty_divider(v: u16) -> (r: u16)
    requires
        v >= 1,
    ensures
        r == 1660int / v as int,
{
    1660 / v
}

/// The PWM duty for a dimming divider: almost full duty when the divider is
/// degenerate, else the maximum duty divided by the divider, which is capped
/// at 100.
pub fn pwm_duty(max: u16, divider: u16) -> (r: u16)
    requires
        max >= 1,
    ensures
        divider <= 1 ==> r == max - 1,
        divider > 100 ==> r == max / 100,
        1 < divider <= 100 ==> r == max / divider,
{
    if divider <= 1 {
        max - 1
    } else {
        max / (if divider > 100 {
            100
        } else {
            divider
        })
    }
}

} // verus!
