use hertz::fps_to_ns_per_frame;
use hertz::ns_sleep_needed_for_constant_rate;
use hertz::RateError;

#[test]
fn fps_to_ns_per_frame_at_sixty() {
    assert_eq!(fps_to_ns_per_frame(60), Ok(16_666_667));
}

#[test]
fn fps_to_ns_per_frame_exact_values() {
    assert_eq!(fps_to_ns_per_frame(1), Ok(1_000_000_000));
    assert_eq!(fps_to_ns_per_frame(2), Ok(500_000_000));
    assert_eq!(fps_to_ns_per_frame(3), Ok(333_333_333));
    assert_eq!(fps_to_ns_per_frame(7), Ok(142_857_143));
    assert_eq!(fps_to_ns_per_frame(30), Ok(33_333_333));
    assert_eq!(fps_to_ns_per_frame(44_100), Ok(22_676));
    assert_eq!(fps_to_ns_per_frame(1_000_000_000), Ok(1));
}

#[test]
fn fps_to_ns_per_frame_rounds_halves_up() {
    // 1e9 / 2e9 is exactly one half, 1e9 / 16 is 62_500_000 exactly,
    // 1e9 / 400_000_000 is exactly two and a half.
    assert_eq!(fps_to_ns_per_frame(2_000_000_000), Ok(1));
    assert_eq!(fps_to_ns_per_frame(16), Ok(62_500_000));
    assert_eq!(fps_to_ns_per_frame(400_000_000), Ok(3));
    assert_eq!(fps_to_ns_per_frame(666_666_667), Ok(1));
    assert_eq!(fps_to_ns_per_frame(666_666_666), Ok(2));
}

#[test]
fn fps_to_ns_per_frame_is_zero_for_rates_beyond_two_per_nanosecond() {
    assert_eq!(fps_to_ns_per_frame(2_000_000_001), Ok(0));
    assert_eq!(fps_to_ns_per_frame(usize::MAX), Ok(0));
}

#[test]
fn fps_to_ns_per_frame_refuses_zero() {
    assert_eq!(fps_to_ns_per_frame(0), Err(RateError::InvalidRate));
}

#[test]
fn fps_to_ns_per_frame_agrees_with_rounding_the_float_quotient() {
    let mut rates: Vec<usize> = (1..=20_000).collect();
    let mut rate: usize = 20_011;
    while rate < 4_000_000_000 {
        rates.push(rate);
        rate = rate + rate / 97 + 1;
    }
    rates.extend([1_999_999_999, 2_000_000_000, 2_000_000_001, 666_666_666, 666_666_667]);
    for fps in rates {
        let rounded = libm::round(1_000_000_000.0 / (fps as f64)) as u64;
        assert_eq!(fps_to_ns_per_frame(fps), Ok(rounded), "at {} frames per second", fps);
    }
}

#[test]
fn sleep_is_the_rest_of_the_frame() {
    assert_eq!(ns_sleep_needed_for_constant_rate(60, 0), Ok(Some(16_666_667)));
    assert_eq!(ns_sleep_needed_for_constant_rate(60, 6_666_667), Ok(Some(10_000_000)));
    assert_eq!(ns_sleep_needed_for_constant_rate(60, 16_666_666), Ok(Some(1)));
    assert_eq!(ns_sleep_needed_for_constant_rate(1, 1), Ok(Some(999_999_999)));
}

#[test]
fn no_sleep_once_the_budget_is_spent() {
    assert_eq!(ns_sleep_needed_for_constant_rate(60, 16_666_667), Ok(None));
    assert_eq!(ns_sleep_needed_for_constant_rate(60, 16_666_668), Ok(None));
    assert_eq!(ns_sleep_needed_for_constant_rate(60, 5_000_000_000), Ok(None));
    assert_eq!(ns_sleep_needed_for_constant_rate(60, u128::MAX), Ok(None));
    assert_eq!(ns_sleep_needed_for_constant_rate(1, 1_000_000_000), Ok(None));
}

#[test]
fn no_sleep_when_the_frame_has_no_duration() {
    assert_eq!(ns_sleep_needed_for_constant_rate(usize::MAX, 0), Ok(None));
}

#[test]
fn sleep_refuses_a_rate_of_zero() {
    assert_eq!(ns_sleep_needed_for_constant_rate(0, 0), Err(RateError::InvalidRate));
    assert_eq!(ns_sleep_needed_for_constant_rate(0, 1_000), Err(RateError::InvalidRate));
}
