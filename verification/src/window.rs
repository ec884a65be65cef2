//! Sums and means over a window of samples.

use crate::magnitude::AccelSample;
use vstd::prelude::*;

verus! {

/// The sum of the samples in `window`, axis by axis.
pub open spec fn window_sum(window: Seq<AccelSample>) -> (int, int, int)
    decreases window.len(),
{
    if window.len() == 0 {
        (0, 0, 0)
    } else {
        let rest = window_sum(window.drop_last());
        let sample = window.last();
        (rest.0 + sample.0, rest.1 + sample.1, rest.2 + sample.2)
    }
}

/// `total / count` rounded toward zero.
pub open spec fn truncated_quotient(total: int, count: int) -> int
    recommends
        count > 0,
{
    if total >= 0 {
        total / count
    } else {
        -((-total) / count)
    }
}

/// The mean of the samples in `window`, axis by axis, each rounded toward
/// zero. For a window that is not empty every axis of the mean is within the
/// range of `i32` (`lemma_mean_fits`), so narrowing loses nothing.
pub open spec fn window_mean(window: Seq<AccelSample>) -> AccelSample
    recommends
        window.len() > 0,
{
    let total = window_sum(window);
    let count = window.len() as int;
    (
        truncated_quotient(total.0, count) as i32,
        truncated_quotient(total.1, count) as i32,
        truncated_quotient(total.2, count) as i32,
    )
}

/// Adding a sample to a window adds it to the sum.
pub proof fn lemma_sum_push(window: Seq<AccelSample>, sample: AccelSample)
    ensures
        window_sum(window.push(sample)) == (
            window_sum(window).0 + sample.0,
            window_sum(window).1 + sample.1,
            window_sum(window).2 + sample.2,
        ),
{
    assert(window.push(sample).drop_last() =~= window);
}

/// Every axis of the sum lies between `len` times the least and `len` times
/// the greatest `i32`.
pub proof fn lemma_sum_bounds(window: Seq<AccelSample>)
    ensures
        window.len() * i32::MIN <= window_sum(window).0 <= window.len() * i32::MAX,
        window.len() * i32::MIN <= window_sum(window).1 <= window.len() * i32::MAX,
        window.len() * i32::MIN <= window_sum(window).2 <= window.len() * i32::MAX,
    decreases window.len(),
{
    if window.len() > 0 {
        lemma_sum_bounds(window.drop_last());
    }
}

/// A total of `count` values of type `i32`, divided by `count`, is an `i32`.
pub proof fn lemma_quotient_fits(total: int, count: int)
    requires
        count > 0,
        count * i32::MIN <= total <= count * i32::MAX,
    ensures
        i32::MIN <= truncated_quotient(total, count) <= i32::MAX,
{
    if total >= 0 {
        assert(total / count <= 0x7fff_ffff) by (nonlinear_arith)
            requires
                count > 0,
                0 <= total <= count * 0x7fff_ffff,
        ;
        assert(0 <= total / count) by (nonlinear_arith)
            requires
                count > 0,
                0 <= total,
        ;
    } else {
        assert(0 <= (-total) / count <= 0x8000_0000) by (nonlinear_arith)
            requires
                count > 0,
                0 <= -total <= count * 0x8000_0000,
        ;
    }
}

/// Narrowing the mean of a window that is not empty to `i32` loses nothing:
/// every axis of `window_mean` is the sum of that axis divided by the number
/// of samples, rounded toward zero.
pub proof fn lemma_mean_fits(window: Seq<AccelSample>)
    requires
        window.len() > 0,
    ensures
        window_mean(window).0 == truncated_quotient(window_sum(window).0, window.len() as int),
        window_mean(window).1 == truncated_quotient(window_sum(window).1, window.len() as int),
        window_mean(window).2 == truncated_quotient(window_sum(window).2, window.len() as int),
{
    lemma_sum_bounds(window);
    lemma_quotient_fits(window_sum(window).0, window.len() as int);
    lemma_quotient_fits(window_sum(window).1, window.len() as int);
    lemma_quotient_fits(window_sum(window).2, window.len() as int);
}

/// The mean of a window of one sample is that sample.
pub proof fn lemma_mean_of_one(sample: AccelSample)
    ensures
        window_mean(seq![sample]) == sample,
{
    let window = seq![sample];
    assert(window.drop_last() =~= Seq::<AccelSample>::empty());
    assert(window_sum(window.drop_last()) == (0int, 0int, 0int));
    assert(window_sum(window) == (sample.0 as int, sample.1 as int, sample.2 as int));
}

} // verus!
