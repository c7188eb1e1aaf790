use pidaosphere::pricing::apply_price;
use pidaosphere::pricing::isqrt;
use pidaosphere::pricing::mul_div;
use pidaosphere::pricing::proportion;

#[test]
fn apply_price_multiplies_exactly() {
    assert_eq!(apply_price(100, 2), Some(200));
    assert_eq!(apply_price(0, u64::MAX), Some(0));
    assert_eq!(apply_price(u64::MAX, 1), Some(u64::MAX));
}

#[test]
fn apply_price_reports_overflow() {
    assert_eq!(apply_price(u64::MAX, 2), None);
    assert_eq!(apply_price(1 << 32, 1 << 32), None);
}

#[test]
fn mul_div_floors() {
    assert_eq!(mul_div(6, 7, 2), Some(21));
    assert_eq!(mul_div(7, 3, 4), Some(5));
    assert_eq!(mul_div(0, u64::MAX, 3), Some(0));
}

#[test]
fn mul_div_wide_intermediate_does_not_wrap() {
    assert_eq!(mul_div(u64::MAX, u64::MAX, u64::MAX), Some(u64::MAX));
    assert_eq!(mul_div(u64::MAX, u64::MAX, 1), None);
}

#[test]
fn proportion_never_exceeds_value() {
    assert_eq!(proportion(1, 100, 3), 33);
    assert_eq!(proportion(3, 100, 3), 100);
    assert_eq!(proportion(0, 100, 3), 0);
    assert_eq!(proportion(u64::MAX, u64::MAX, u64::MAX), u64::MAX);
}

#[test]
fn isqrt_small_values() {
    assert_eq!(isqrt(0), 0);
    assert_eq!(isqrt(1), 1);
    assert_eq!(isqrt(3), 1);
    assert_eq!(isqrt(4), 2);
    assert_eq!(isqrt(99), 9);
    assert_eq!(isqrt(100), 10);
    assert_eq!(isqrt(100_000_000), 10_000);
}

#[test]
fn isqrt_wide_values() {
    assert_eq!(isqrt(u64::MAX as u128), 4294967295);
    assert_eq!(isqrt((u64::MAX as u128) * (u64::MAX as u128)), u64::MAX);
    let near = (u64::MAX as u128) * (u64::MAX as u128) - 1;
    assert_eq!(isqrt(near), u64::MAX - 1);
}
