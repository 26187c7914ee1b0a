use crate::error::RateError;
use crate::units::NS_PER_S;
use vstd::prelude::*;

verus! {

/// The integer nearest to `num / den`; where two integers are equally near,
/// the larger one (for the non-negative quotients used here, rounding half
/// away from zero).
pub open spec fn rounded_quotient(num: int, den: int) -> int
    recommends
        num >= 0,
        den > 0,
{
    (2 * num + den) / (2 * den)
}

/// The duration of one frame at `fps` frames per second, in nanoseconds.
pub open spec fn ns_per_frame(fps: int) -> int
    recommends
        fps > 0,
{
    rounded_quotient(NS_PER_S as int, fps)
}

/// How long a loop that has already spent `elapsed_ns` of a `budget_ns`
/// iteration still has to sleep: the remainder while time is left, nothing
/// once the budget is used up or overrun.
pub open spec fn sleep_needed(budget_ns: int, elapsed_ns: int) -> Option<u64> {
    if elapsed_ns < budget_ns {
        Some((budget_ns - elapsed_ns) as u64)
    } else {
        None
    }
}

/// `q` is within half a unit of `num / den`, the lower end excluded:
/// `num / den - 1/2 < q <= num / den + 1/2`, stated without fractions.
pub open spec fn is_nearest_integer(num: int, den: int, q: int) -> bool {
    2 * num - den < 2 * den * q <= 2 * num + den
}

/// `rounded_quotient(num, den)` is the nearest integer to `num / den`, and
/// the only one.
pub proof fn lemma_rounded_quotient_is_nearest(num: int, den: int)
    requires
        num >= 0,
        den > 0,
    ensures
        is_nearest_integer(num, den, rounded_quotient(num, den)),
        forall|q: int| #[trigger]
            is_nearest_integer(num, den, q) ==> q == rounded_quotient(num, den),
{
    let n = 2 * num + den;
    let d = 2 * den;
    let r = rounded_quotient(num, den);
    assert(r == n / d);
    assert(d * (n / d) <= n < d * (n / d) + d) by (nonlinear_arith)
        requires
            d > 0,
    ;
    assert forall|q: int| #[trigger] is_nearest_integer(num, den, q) implies q == r by {
        assert(d * q <= n < d * q + d);
        assert(q == n / d) by (nonlinear_arith)
            requires
                d > 0,
                d * q <= n < d * q + d,
        ;
    }
}

/// The frame duration lies between zero and a whole second, and is zero
/// exactly for rates above two per nanosecond.
pub proof fn lemma_ns_per_frame_bounds(fps: int)
    requires
        fps > 0,
    ensures
        0 <= ns_per_frame(fps) <= NS_PER_S,
        ns_per_frame(fps) == 0 <==> fps > 2 * NS_PER_S,
{
    let second = NS_PER_S as int;
    lemma_rounded_quotient_is_nearest(second, fps);
    let q = ns_per_frame(fps);
    assert(0 <= q <= second) by (nonlinear_arith)
        requires
            fps > 0,
            second > 0,
            2 * second - fps < 2 * fps * q <= 2 * second + fps,
    ;
    assert(2 * fps * 0 == 0);
    if fps > 2 * second {
        assert(is_nearest_integer(second, fps, 0));
    }
}

/// Frames per second to nanoseconds per frame: `1_000_000_000 / fps`,
/// rounded to the nearest nanosecond with halves rounded up.
///
/// A rate of zero has no frame duration and is refused.
pub fn fps_to_ns_per_frame(fps: usize) -> (r: Result<u64, RateError>)
    ensures
        fps == 0 ==> r == Err::<u64, RateError>(RateError::InvalidRate),
        fps > 0 ==> r == Ok::<u64, RateError>(ns_per_frame(fps as int) as u64),
        r matches Ok(ns) ==> ns <= NS_PER_S,
{
    if fps == 0 {
        return Err(RateError::InvalidRate);
    }
    proof {
        lemma_ns_per_frame_bounds(fps as int);
    }
    if fps > 2_000_000_000 {
        return Ok(0);
    }
    let second: u64 = NS_PER_S as u64;
    let rate: u64 = fps as u64;
    Ok((2 * second + rate) / (2 * rate))
}

/// The sleep that keeps a loop at `fps` iterations per second, given the
/// `elapsed_ns` nanoseconds that the current iteration has taken so far.
///
/// `Ok(Some(ns))` asks for a sleep of `ns > 0` nanoseconds, the rest of the
/// frame. `Ok(None)` says not to block: the frame's budget is used up
/// exactly, or overrun, and an overrun is not made up for later.
pub fn ns_sleep_needed_for_constant_rate(fps: usize, elapsed_ns: u128) -> (r: Result<
    Option<u64>,
    RateError,
>)
    ensures
        fps == 0 ==> r == Err::<Option<u64>, RateError>(RateError::InvalidRate),
        fps > 0 ==> r == Ok::<Option<u64>, RateError>(
            sleep_needed(ns_per_frame(fps as int), elapsed_ns as int),
        ),
        fps > 0 && elapsed_ns >= ns_per_frame(fps as int) ==> r == Ok::<Option<u64>, RateError>(
            None,
        ),
        r matches Ok(Some(ns)) ==> 0 < ns <= NS_PER_S,
{
    let budget = match fps_to_ns_per_frame(fps) {
        Ok(ns) => ns,
        Err(e) => {
            return Err(e);
        },
    };
    proof {
        lemma_ns_per_frame_bounds(fps as int);
    }
    if elapsed_ns < budget as u128 {
        let spent: u64 = elapsed_ns as u64;
        Ok(Some(budget - spent))
    } else {
        Ok(None)
    }
}

} // verus!
