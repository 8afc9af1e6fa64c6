use cyclictest::span::{Span, MAX_SPAN_NANOS, NANOS_PER_MILLI, NANOS_PER_SEC};

fn nanos(n: u128) -> Span {
    Span::from_nanos(n).unwrap()
}

#[test]
fn zero_span_is_empty() {
    assert_eq!(Span::zero().as_nanos(), 0);
    assert_eq!(Span::zero().as_secs(), 0);
    assert_eq!(Span::zero().subsec_nanos(), 0);
}

#[test]
fn from_millis_counts_a_million_nanoseconds_each() {
    assert_eq!(NANOS_PER_MILLI, 1_000_000);
    assert_eq!(Span::from_millis(0).as_nanos(), 0);
    assert_eq!(Span::from_millis(10).as_nanos(), 10_000_000);
    assert_eq!(Span::from_millis(u64::MAX).as_nanos(), 18_446_744_073_709_551_615_000_000);
}

#[test]
fn from_nanos_accepts_up_to_the_longest_span() {
    assert_eq!(MAX_SPAN_NANOS, (u64::MAX as u128) * NANOS_PER_SEC + 999_999_999);
    assert_eq!(Span::from_nanos(MAX_SPAN_NANOS).unwrap().as_nanos(), MAX_SPAN_NANOS);
    assert_eq!(Span::from_nanos(MAX_SPAN_NANOS + 1), None);
    assert_eq!(Span::from_nanos(u128::MAX), None);
}

#[test]
fn span_splits_into_seconds_and_rest() {
    let span = nanos(3_250_000_017);
    assert_eq!(span.as_secs(), 3);
    assert_eq!(span.subsec_nanos(), 250_000_017);
    let longest = nanos(MAX_SPAN_NANOS);
    assert_eq!(longest.as_secs(), u64::MAX);
    assert_eq!(longest.subsec_nanos(), 999_999_999);
}

#[test]
fn exceeds_is_strict() {
    assert!(nanos(2).exceeds(&nanos(1)));
    assert!(!nanos(1).exceeds(&nanos(2)));
    assert!(!nanos(2).exceeds(&nanos(2)));
}

#[test]
fn checked_add_sums_exactly() {
    assert_eq!(nanos(5).checked_add(&nanos(7)), Some(nanos(12)));
    assert_eq!(nanos(MAX_SPAN_NANOS - 1).checked_add(&nanos(1)), Some(nanos(MAX_SPAN_NANOS)));
}

#[test]
fn checked_add_refuses_a_sum_beyond_the_longest_span() {
    assert_eq!(nanos(MAX_SPAN_NANOS).checked_add(&nanos(1)), None);
    assert_eq!(nanos(MAX_SPAN_NANOS).checked_add(&nanos(MAX_SPAN_NANOS)), None);
}

#[test]
fn saturating_sub_stops_at_zero() {
    assert_eq!(nanos(9).saturating_sub(&nanos(4)), nanos(5));
    assert_eq!(nanos(4).saturating_sub(&nanos(4)), Span::zero());
    assert_eq!(nanos(4).saturating_sub(&nanos(9)), Span::zero());
}

#[test]
fn checked_div_rounds_down() {
    assert_eq!(nanos(7).checked_div(2), Some(nanos(3)));
    assert_eq!(nanos(7).checked_div(7), Some(nanos(1)));
    assert_eq!(nanos(7).checked_div(8), Some(Span::zero()));
    assert_eq!(nanos(MAX_SPAN_NANOS).checked_div(1), Some(nanos(MAX_SPAN_NANOS)));
}

#[test]
fn checked_div_refuses_zero_parts() {
    assert_eq!(nanos(7).checked_div(0), None);
    assert_eq!(Span::zero().checked_div(0), None);
}
