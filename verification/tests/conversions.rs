use hertz::ms_to_ns;
use hertz::ms_to_s;
use hertz::s_to_ms;
use hertz::s_to_ns;

#[test]
fn test_s_to_ms() {
    assert_eq!(s_to_ms(1), 1000);
    assert_eq!(s_to_ms(1.), 1000.);
}

#[test]
fn test_ms_to_s() {
    assert_eq!(ms_to_s(1000), 1);
    assert_eq!(ms_to_s(1000.), 1.);
}

#[test]
fn s_to_ms_scales_integers_by_a_thousand() {
    assert_eq!(s_to_ms(0u64), 0);
    assert_eq!(s_to_ms(7u64), 7000);
    assert_eq!(s_to_ms(65u32), 65_000);
    assert_eq!(s_to_ms(-3i64), -3000);
    assert_eq!(s_to_ms(18_446_744_073_709_551u64), 18_446_744_073_709_551_000);
}

#[test]
fn s_to_ms_scales_fractions() {
    assert_eq!(s_to_ms(0.5f64), 500.0);
    assert_eq!(s_to_ms(0.25f32), 250.0);
}

#[test]
fn ms_to_s_truncates_integers() {
    assert_eq!(ms_to_s(0u64), 0);
    assert_eq!(ms_to_s(999u64), 0);
    assert_eq!(ms_to_s(1999u64), 1);
    assert_eq!(ms_to_s(u64::MAX), 18_446_744_073_709_551);
}

#[test]
fn ms_to_s_keeps_fractions() {
    assert_eq!(ms_to_s(1500.0f64), 1.5);
    assert_eq!(ms_to_s(250.0f64), 0.25);
}

#[test]
fn seconds_round_trip_through_milliseconds() {
    let seconds: [u64; 6] = [1, 2, 59, 3600, 86_400, 18_446_744_073_709_551];
    for s in seconds {
        assert_eq!(ms_to_s(s_to_ms(s)), s);
    }
    let fractions: [f64; 4] = [1.0, 0.5, 12.25, 44100.0];
    for x in fractions {
        assert!((ms_to_s(s_to_ms(x)) - x).abs() <= 1e-12 * x);
    }
}

#[test]
fn s_to_ns_scales_by_a_billion() {
    assert_eq!(s_to_ns(1.0f64), 1_000_000_000.0);
    assert_eq!(s_to_ns(0.5f64), 500_000_000.0);
    assert_eq!(s_to_ns(3u64), 3_000_000_000);
    assert_eq!(s_to_ns(18u64), 18_000_000_000);
}

#[test]
fn ms_to_ns_scales_by_a_million() {
    assert_eq!(ms_to_ns(1.0f64), 1_000_000.0);
    assert_eq!(ms_to_ns(16.5f64), 16_500_000.0);
    assert_eq!(ms_to_ns(2u64), 2_000_000);
}

#[test]
fn nanoseconds_through_milliseconds_equal_nanoseconds_directly() {
    let seconds: [u64; 4] = [0, 1, 17, 18_446_744_073];
    for s in seconds {
        assert_eq!(ms_to_ns(s_to_ms(s)), s_to_ns(s));
    }
}
