//! Usage figures. A utilization is a percentage of a limit; the library holds
//! it in hundredths of a percent (`4550` is 45.50%), which keeps every
//! comparison with a whole-number threshold exact.

use vstd::prelude::*;

verus! {

/// Utilization in hundredths of a percent.
pub type Centis = u32;

/// Whole percent, rounding halves away from zero (`f64::round`).
pub open spec fn rounded_percent(c: int) -> int {
    (c + 50) / 100
}

/// Whole percent as `{:.0}` prints it: to the nearest, halves to even.
pub open spec fn display_percent(c: int) -> int {
    let q = c / 100;
    let r = c % 100;
    if r > 50 || (r == 50 && q % 2 == 1) {
        q + 1
    } else {
        q
    }
}

/// Whether a utilization has reached a whole-number percentage.
pub open spec fn reaches(c: int, percent: int) -> bool {
    c >= percent * 100
}

/// `f64::round` of the utilization, as a whole percent.
pub fn round_percent(c: Centis) -> (r: u32)
    ensures
        r == rounded_percent(c as int),
{
    (c / 100) + if c % 100 >= 50 {
        1u32
    } else {
        0u32
    }
}

/// The utilization as `{:.0}` shows it.
pub fn display_percent_of(c: Centis) -> (r: u32)
    ensures
        r == display_percent(c as int),
{
    let q = c / 100;
    let r = c % 100;
    if r > 50 || (r == 50 && q % 2 == 1) {
        q + 1
    } else {
        q
    }
}

} // verus!
