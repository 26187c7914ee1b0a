use crate::error::RateError;
use std::ops::Div;
use std::ops::Range;
use vstd::prelude::*;
use vstd::std_specs::cmp::PartialOrdIs;
use vstd::std_specs::cmp::PartialOrdSpec;
use vstd::std_specs::convert::FromSpec;
use vstd::std_specs::ops::DivSpec;

verus! {

/// `T` converts from `u16`, compares and divides as its specifications say.
pub open spec fn obeys_rate_specs<T>() -> bool where
    T: Div<T, Output = T> + From<u16> + PartialOrd,
 {
    &&& T::obeys_from_spec()
    &&& T::obeys_partial_cmp_spec()
    &&& T::obeys_div_spec()
}

/// `x` is strictly greater than `T`'s zero. A value that does not compare
/// with zero at all is not positive.
pub open spec fn is_positive<T>(x: T) -> bool where T: From<u16> + PartialOrd {
    x.is_gt(&T::from_spec(0u16))
}

/// Half the sample rate.
pub open spec fn nyquist_frequency<T>(sample_rate: T) -> T where
    T: Div<T, Output = T> + From<u16>,
 {
    sample_rate.div_spec(T::from_spec(2u16))
}

/// The sample rate divided by the window size.
pub open spec fn rayleigh_frequency<T>(sample_rate: T, window_size: T) -> T where
    T: Div<T, Output = T>,
 {
    sample_rate.div_spec(window_size)
}

/// The half-open band from the Rayleigh frequency to the Nyquist frequency.
pub open spec fn resolvable_band<T>(sample_rate: T, window_size: T) -> Range<T> where
    T: Div<T, Output = T> + From<u16>,
 {
    Range {
        start: rayleigh_frequency(sample_rate, window_size),
        end: nyquist_frequency(sample_rate),
    }
}

/// The highest frequency that a signal sampled at `sample_rate` can
/// represent: half the sample rate.
///
/// A sample rate that is not positive is refused.
pub fn nyquist<T>(sample_rate: T) -> (r: Result<T, RateError>) where
    T: Div<T, Output = T> + From<u16> + PartialOrd,

    requires
        obeys_rate_specs::<T>(),
        is_positive(sample_rate) ==> sample_rate.div_req(T::from_spec(2u16)),
    ensures
        r == if is_positive(sample_rate) {
            Ok(nyquist_frequency(sample_rate))
        } else {
            Err(RateError::InvalidRate)
        },
{
    let zero = T::from(0u16);
    if sample_rate > zero {
        Ok(sample_rate / T::from(2u16))
    } else {
        Err(RateError::InvalidRate)
    }
}

/// The frequency resolution of a transform over windows of `window_size`
/// samples taken at `sample_rate`, also the lowest frequency it can tell
/// apart: the reciprocal of the window's duration, `sample_rate /
/// window_size`.
///
/// A sample rate or window size that is not positive is refused.
pub fn rayleigh<T>(sample_rate: T, window_size: T) -> (r: Result<T, RateError>) where
    T: Div<T, Output = T> + From<u16> + PartialOrd,

    requires
        obeys_rate_specs::<T>(),
        is_positive(sample_rate) && is_positive(window_size) ==> sample_rate.div_req(window_size),
    ensures
        r == if is_positive(sample_rate) && is_positive(window_size) {
            Ok(rayleigh_frequency(sample_rate, window_size))
        } else {
            Err(RateError::InvalidRate)
        },
{
    let zero = T::from(0u16);
    if sample_rate > zero && window_size > zero {
        Ok(sample_rate / window_size)
    } else {
        Err(RateError::InvalidRate)
    }
}

/// The time that `cycles` cycles take at `cycles_per_second`, in seconds:
/// `cycles / cycles_per_second`.
///
/// A rate that is not positive is refused; any number of cycles is taken.
pub fn cycles_per_second_to_seconds_per_cycle<T>(cycles_per_second: T, cycles: T) -> (r: Result<
    T,
    RateError,
>) where T: Div<T, Output = T> + From<u16> + PartialOrd
    requires
        obeys_rate_specs::<T>(),
        is_positive(cycles_per_second) ==> cycles.div_req(cycles_per_second),
    ensures
        r == if is_positive(cycles_per_second) {
            Ok(cycles.div_spec(cycles_per_second))
        } else {
            Err(RateError::InvalidRate)
        },
{
    let zero = T::from(0u16);
    if cycles_per_second > zero {
        Ok(cycles / cycles_per_second)
    } else {
        Err(RateError::InvalidRate)
    }
}

/// The band of frequencies that a transform over windows of `window_size`
/// samples taken at `sample_rate` can resolve: from the Rayleigh frequency
/// up to, and not including, the Nyquist frequency.
///
/// A sample rate or window size that is not positive is refused.
pub fn hertz_range<T>(sample_rate: T, window_size: T) -> (r: Result<Range<T>, RateError>) where
    T: Div<T, Output = T> + From<u16> + PartialOrd + Clone,

    requires
        obeys_rate_specs::<T>(),
        forall|copy: T| cloned(sample_rate, copy) ==> copy == sample_rate,
        is_positive(sample_rate) && is_positive(window_size) ==> sample_rate.div_req(window_size),
        is_positive(sample_rate) ==> sample_rate.div_req(T::from_spec(2u16)),
    ensures
        r == if is_positive(sample_rate) && is_positive(window_size) {
            Ok(resolvable_band(sample_rate, window_size))
        } else {
            Err(RateError::InvalidRate)
        },
{
    let copy = sample_rate.clone();
    assert(cloned(sample_rate, copy));
    let low = match rayleigh(copy, window_size) {
        Ok(frequency) => frequency,
        Err(e) => {
            return Err(e);
        },
    };
    let high = match nyquist(sample_rate) {
        Ok(frequency) => frequency,
        Err(e) => {
            return Err(e);
        },
    };
    Ok(low..high)
}

/// On `u64` the specifications are plain integer arithmetic: positive means
/// greater than zero, and both frequencies are truncating quotients.
pub proof fn lemma_rates_on_u64(sample_rate: u64, window_size: u64)
    ensures
        obeys_rate_specs::<u64>(),
        is_positive(sample_rate) <==> sample_rate > 0,
        nyquist_frequency(sample_rate) == sample_rate / 2,
        window_size > 0 ==> rayleigh_frequency(sample_rate, window_size) == sample_rate
            / window_size,
{
    assert(u64::from_spec(0u16) == 0u64);
    assert(u64::from_spec(2u16) == 2u64);
    assert(sample_rate.is_gt(&0u64) <==> sample_rate > 0);
    assert(sample_rate.div_spec(2u64) == sample_rate / 2);
}

/// With a window of two samples or more, the band is well formed: its
/// lower end is not above its upper end.
pub proof fn lemma_rayleigh_at_most_nyquist(sample_rate: u64, window_size: u64)
    requires
        sample_rate > 0,
        window_size >= 2,
    ensures
        rayleigh_frequency(sample_rate, window_size) <= nyquist_frequency(sample_rate),
{
    lemma_rates_on_u64(sample_rate, window_size);
    vstd::arithmetic::div_mod::lemma_div_is_ordered_by_denominator(
        sample_rate as int,
        2,
        window_size as int,
    );
}

/// With a window of more than two samples, the lower end of the band is
/// strictly below its upper end, but where truncation leaves nothing
/// between them: at a sample rate of 1, where both are 0, and at a sample
/// rate and window size of 3, where both are 1.
pub proof fn lemma_rayleigh_below_nyquist(sample_rate: u64, window_size: u64)
    requires
        sample_rate > 0,
        window_size > 2,
        sample_rate != 1,
        !(sample_rate == 3 && window_size == 3),
    ensures
        rayleigh_frequency(sample_rate, window_size) < nyquist_frequency(sample_rate),
{
    lemma_rates_on_u64(sample_rate, window_size);
    if window_size > sample_rate {
        vstd::arithmetic::div_mod::lemma_basic_div(sample_rate as int, window_size as int);
    } else {
        vstd::arithmetic::div_mod::lemma_div_is_ordered_by_denominator(
            sample_rate as int,
            3,
            window_size as int,
        );
        if sample_rate == 3 {
            vstd::arithmetic::div_mod::lemma_div_is_ordered_by_denominator(
                sample_rate as int,
                4,
                window_size as int,
            );
        }
    }
}

/// At a fixed sample rate the upper end of the band does not depend on the
/// window, and doubling the window never raises the lower end; it lowers it
/// strictly as long as the window is not longer than a second of samples
/// (beyond that the lower end is already 0).
pub proof fn lemma_doubling_the_window(sample_rate: u64, window_size: u64)
    requires
        sample_rate > 0,
        window_size > 0,
        2 * window_size <= u64::MAX,
    ensures
        resolvable_band(sample_rate, (2 * window_size) as u64).end == resolvable_band(
            sample_rate,
            window_size,
        ).end,
        resolvable_band(sample_rate, (2 * window_size) as u64).start <= resolvable_band(
            sample_rate,
            window_size,
        ).start,
        window_size <= sample_rate ==> resolvable_band(
            sample_rate,
            (2 * window_size) as u64,
        ).start < resolvable_band(sample_rate, window_size).start,
{
    let doubled = (2 * window_size) as u64;
    lemma_rates_on_u64(sample_rate, window_size);
    lemma_rates_on_u64(sample_rate, doubled);
    vstd::arithmetic::div_mod::lemma_div_denominator(sample_rate as int, window_size as int, 2);
    assert(window_size * 2 == 2 * window_size);
    if window_size <= sample_rate {
        vstd::arithmetic::div_mod::lemma_div_non_zero(sample_rate as int, window_size as int);
    }
}

} // verus!
