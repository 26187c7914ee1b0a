use std::ops::Div;
use std::ops::Mul;
use vstd::prelude::*;
use vstd::std_specs::convert::FromSpec;
use vstd::std_specs::ops::DivSpec;
use vstd::std_specs::ops::MulSpec;

verus! {

/// Milliseconds in one second.
pub const MS_PER_S: u16 = 1000;

/// Nanoseconds in one millisecond.
pub const NS_PER_MS: u32 = 1_000_000;

/// Nanoseconds in one second.
pub const NS_PER_S: u32 = 1_000_000_000;

/// `x` times the unit ratio `ratio`, with `T`'s own multiplication.
pub open spec fn scaled_up<T, K>(x: T, ratio: K) -> T where T: Mul<T, Output = T> + From<K> {
    x.mul_spec(T::from_spec(ratio))
}

/// `x` divided by the unit ratio `ratio`, with `T`'s own division.
pub open spec fn scaled_down<T, K>(x: T, ratio: K) -> T where T: Div<T, Output = T> + From<K> {
    x.div_spec(T::from_spec(ratio))
}

/// `T` converts from `K` and multiplies as its specification says, and
/// `x` times `ratio` is within what `T` can multiply.
pub open spec fn can_scale_up<T, K>(x: T, ratio: K) -> bool where
    T: Mul<T, Output = T> + From<K>,
 {
    &&& T::obeys_from_spec()
    &&& T::obeys_mul_spec()
    &&& x.mul_req(T::from_spec(ratio))
}

/// `T` converts from `K` and divides as its specification says, and
/// `x` by `ratio` is within what `T` can divide.
pub open spec fn can_scale_down<T, K>(x: T, ratio: K) -> bool where
    T: Div<T, Output = T> + From<K>,
 {
    &&& T::obeys_from_spec()
    &&& T::obeys_div_spec()
    &&& x.div_req(T::from_spec(ratio))
}

/// Seconds to milliseconds: `s` times 1000. The product has to fit in `T`.
pub fn s_to_ms<T>(s: T) -> (ms: T) where T: Mul<T, Output = T> + From<u16>
    requires
        can_scale_up(s, MS_PER_S),
    ensures
        ms == scaled_up(s, MS_PER_S),
{
    s * T::from(MS_PER_S)
}

/// Milliseconds to seconds: `ms` divided by 1000, as `T` divides (integers
/// truncate).
pub fn ms_to_s<T>(ms: T) -> (s: T) where T: Div<T, Output = T> + From<u16>
    requires
        can_scale_down(ms, MS_PER_S),
    ensures
        s == scaled_down(ms, MS_PER_S),
{
    ms / T::from(MS_PER_S)
}

/// Seconds to nanoseconds: `s` times 1_000_000_000. The product has to fit
/// in `T`.
pub fn s_to_ns<T>(s: T) -> (ns: T) where T: Mul<T, Output = T> + From<u32>
    requires
        can_scale_up(s, NS_PER_S),
    ensures
        ns == scaled_up(s, NS_PER_S),
{
    s * T::from(NS_PER_S)
}

/// Milliseconds to nanoseconds: `ms` times 1_000_000. The product has to
/// fit in `T`.
pub fn ms_to_ns<T>(ms: T) -> (ns: T) where T: Mul<T, Output = T> + From<u32>
    requires
        can_scale_up(ms, NS_PER_MS),
    ensures
        ns == scaled_up(ms, NS_PER_MS),
{
    ms * T::from(NS_PER_MS)
}

/// On `u64` the conversions are plain integer arithmetic: scaling up
/// multiplies by the ratio and is allowed as long as the product fits;
/// scaling down is the truncating quotient and always allowed.
pub proof fn lemma_conversions_on_u64(x: u64)
    ensures
        can_scale_up(x, MS_PER_S) <==> x * 1000 <= u64::MAX,
        can_scale_up(x, MS_PER_S) ==> scaled_up(x, MS_PER_S) == x * 1000,
        can_scale_up(x, NS_PER_MS) <==> x * 1_000_000 <= u64::MAX,
        can_scale_up(x, NS_PER_MS) ==> scaled_up(x, NS_PER_MS) == x * 1_000_000,
        can_scale_up(x, NS_PER_S) <==> x * 1_000_000_000 <= u64::MAX,
        can_scale_up(x, NS_PER_S) ==> scaled_up(x, NS_PER_S) == x * 1_000_000_000,
        can_scale_down(x, MS_PER_S),
        scaled_down(x, MS_PER_S) == x / 1000,
{
}

/// Whole seconds survive the trip to milliseconds and back.
pub proof fn lemma_s_to_ms_round_trip(s: u64)
    requires
        can_scale_up(s, MS_PER_S),
    ensures
        can_scale_down(scaled_up(s, MS_PER_S), MS_PER_S),
        scaled_down(scaled_up(s, MS_PER_S), MS_PER_S) == s,
{
    lemma_conversions_on_u64(s);
    lemma_conversions_on_u64(scaled_up(s, MS_PER_S));
}

/// Going to nanoseconds through milliseconds is going there directly.
pub proof fn lemma_s_to_ns_through_ms(s: u64)
    requires
        can_scale_up(s, NS_PER_S),
    ensures
        can_scale_up(s, MS_PER_S),
        can_scale_up(scaled_up(s, MS_PER_S), NS_PER_MS),
        scaled_up(scaled_up(s, MS_PER_S), NS_PER_MS) == scaled_up(s, NS_PER_S),
{
    lemma_conversions_on_u64(s);
    lemma_conversions_on_u64(scaled_up(s, MS_PER_S));
}

} // verus!
