//! The loudness curve.
use vstd::prelude::*;

verus! {

/// The gain that leaves a source as it is. Gains are counted in parts of this.
pub const FULL_GAIN: u16 = 10_000;

/// The percent that a volume setting stands for: settings past 100 mean 100.
pub open spec fn heard_percent(percent: u8) -> int {
    if percent <= 100 {
        percent as int
    } else {
        100
    }
}

/// The square-law gain of a volume setting, in parts of [`FULL_GAIN`].
pub open spec fn square_law(percent: u8) -> int {
    heard_percent(percent) * heard_percent(percent)
}

/// The gain for a volume percent on a square-law perceptual curve, in parts of
/// [`FULL_GAIN`].
///
/// This keeps the useful range broad: 50% is -12 dB and 80% is about -4 dB. A
/// 60 dB logarithmic fader puts those positions at -30 dB and -12 dB, and with
/// them nearly all audible adjustment into the final fifth.
pub fn volume_gain(percent: u8) -> (gain: u16)
    ensures
        gain == square_law(percent),
        gain <= FULL_GAIN,
{
    let heard: u16 = if percent <= 100 {
        percent as u16
    } else {
        100
    };
    assert(heard * heard <= 10_000) by (nonlinear_arith)
        requires
            heard <= 100,
    ;
    heard * heard
}

/// The curve starts at silence and ends at the untouched source, and stays there
/// for settings past 100.
pub proof fn law_curve_ends(percent: u8)
    ensures
        square_law(0) == 0,
        percent >= 100 ==> square_law(percent) == FULL_GAIN,
{
    assert(heard_percent(0) == 0);
    assert(percent >= 100 ==> heard_percent(percent) == 100);
    assert(0int * 0int == 0 && 100int * 100int == 10_000) by (nonlinear_arith);
}

/// The curve is that of the square, up to the full gain.
pub proof fn law_curve_is_a_square(percent: u8)
    ensures
        FULL_GAIN == 100 * 100,
        percent <= 100 ==> square_law(percent) == percent * percent,
        percent >= 100 ==> square_law(percent) == FULL_GAIN,
        0 <= square_law(percent) <= FULL_GAIN,
{
    law_curve_ends(percent);
    let heard = heard_percent(percent);
    assert(0 <= heard * heard <= 10_000) by (nonlinear_arith)
        requires
            0 <= heard <= 100,
    ;
}

/// A higher setting is never quieter, and louder wherever the lower one is below
/// 100.
pub proof fn law_curve_rises(lower: u8, higher: u8)
    requires
        lower < higher,
    ensures
        square_law(lower) <= square_law(higher),
        lower < 100 ==> square_law(lower) < square_law(higher),
{
    let a = heard_percent(lower);
    let b = heard_percent(higher);
    assert(0 <= a <= b ==> a * a <= b * b) by (nonlinear_arith);
    assert(0 <= a < b ==> a * a < b * b) by (nonlinear_arith);
}

} // verus!
