//! Magnitude of an acceleration sample and the two thresholds it is held
//! against.
//!
//! The magnitude of a sample `(x, y, z)` in milli-g is
//! `sqrt(x^2 + y^2 + z^2) / 1000`, a multiple of standard gravity. Both
//! thresholds are whole numbers of milli-g, so the comparisons are decided
//! exactly on `x^2 + y^2 + z^2`, without taking a root.

use vstd::prelude::*;

verus! {

/// One accelerometer reading: the acceleration along x, y and z in milli-g.
pub type AccelSample = (i32, i32, i32);

/// A stable board starts falling when the magnitude drops below this many
/// milli-g (0.50 g).
pub const FALL_THRESHOLD_MG: u64 = 500;

/// A falling board is stable again when the magnitude reaches this many
/// milli-g (0.55 g).
pub const RECOVERY_THRESHOLD_MG: u64 = 550;

/// The square of the length of `sample`, in milli-g squared.
pub open spec fn norm_squared(sample: AccelSample) -> int {
    sample.0 * sample.0 + sample.1 * sample.1 + sample.2 * sample.2
}

/// `m` is the magnitude of `sample` in g: the non-negative number whose
/// thousandfold, squared, is the squared length of the sample.
pub open spec fn is_magnitude(m: real, sample: AccelSample) -> bool {
    m >= 0real && (m * 1000real) * (m * 1000real) == norm_squared(sample) as real
}

/// The fall threshold as a magnitude in g: 0.50.
pub open spec fn fall_threshold() -> real {
    FALL_THRESHOLD_MG as real / 1000real
}

/// The recovery threshold as a magnitude in g: 0.55.
pub open spec fn recovery_threshold() -> real {
    RECOVERY_THRESHOLD_MG as real / 1000real
}

/// The magnitude of `sample` is below the fall threshold.
pub open spec fn below_fall_threshold(sample: AccelSample) -> bool {
    norm_squared(sample) < FALL_THRESHOLD_MG * FALL_THRESHOLD_MG
}

/// The magnitude of `sample` is at or above the recovery threshold.
pub open spec fn reaches_recovery_threshold(sample: AccelSample) -> bool {
    norm_squared(sample) >= RECOVERY_THRESHOLD_MG * RECOVERY_THRESHOLD_MG
}

/// The magnitude of `sample` lies strictly between the two thresholds.
pub open spec fn in_dead_zone(sample: AccelSample) -> bool {
    FALL_THRESHOLD_MG * FALL_THRESHOLD_MG < norm_squared(sample) < RECOVERY_THRESHOLD_MG
        * RECOVERY_THRESHOLD_MG
}

/// Comparing the squared length with a squared threshold is the same as
/// comparing the magnitude with the threshold: where `m` is the magnitude of
/// `sample` in g, `m < 0.50` exactly when the sample is below the fall
/// threshold, `m >= 0.55` exactly when it reaches the recovery threshold, and
/// `0.50 < m < 0.55` exactly when it is in the dead zone.
pub proof fn lemma_thresholds_compare_magnitude(m: real, sample: AccelSample)
    requires
        is_magnitude(m, sample),
    ensures
        m < fall_threshold() <==> below_fall_threshold(sample),
        m >= recovery_threshold() <==> reaches_recovery_threshold(sample),
        fall_threshold() < m < recovery_threshold() <==> in_dead_zone(sample),
{
    let r = m * 1000real;
    assert(r < 500real ==> r * r < 250000real) by (nonlinear_arith)
        requires
            r >= 0real,
    ;
    assert(r >= 500real ==> r * r >= 250000real) by (nonlinear_arith)
        requires
            r >= 0real,
    ;
    assert(r <= 500real ==> r * r <= 250000real) by (nonlinear_arith)
        requires
            r >= 0real,
    ;
    assert(r > 500real ==> r * r > 250000real) by (nonlinear_arith)
        requires
            r >= 0real,
    ;
    assert(r < 550real ==> r * r < 302500real) by (nonlinear_arith)
        requires
            r >= 0real,
    ;
    assert(r >= 550real ==> r * r >= 302500real) by (nonlinear_arith)
        requires
            r >= 0real,
    ;
}

/// The squared length of the sample `(x, y, z)`, in milli-g squared. It is at
/// most three times 2^62 and so fits 64 bits without a sign.
pub fn squared_norm(x: i32, y: i32, z: i32) -> (n: u64)
    ensures
        n == norm_squared((x, y, z)),
{
    let xx: i64 = square(x);
    let yy: i64 = square(y);
    let zz: i64 = square(z);
    xx as u64 + yy as u64 + zz as u64
}

/// The square of one axis; it is at most 2^62.
fn square(a: i32) -> (sq: i64)
    ensures
        sq == a * a,
        0 <= sq <= 0x4000_0000_0000_0000,
{
    assert(0 <= a * a <= 0x4000_0000_0000_0000) by (nonlinear_arith)
        requires
            -0x8000_0000 <= a <= 0x7fff_ffff,
    ;
    (a as i64) * (a as i64)
}

} // verus!
