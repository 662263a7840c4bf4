use spidermonkey::decimal::{signed_decimal_string, unsigned_decimal_string};
use spidermonkey::options::{METHODJIT, VAROBJFIX};

#[test]
fn unsigned_zero_is_single_digit() {
    assert_eq!(unsigned_decimal_string(0), "0");
}

#[test]
fn unsigned_renders_all_digits() {
    assert_eq!(unsigned_decimal_string(1234567890), "1234567890");
    assert_eq!(unsigned_decimal_string(10), "10");
    assert_eq!(unsigned_decimal_string(u64::MAX), "18446744073709551615");
}

#[test]
fn signed_renders_sign_and_extremes() {
    assert_eq!(signed_decimal_string(-5), "-5");
    assert_eq!(signed_decimal_string(42), "42");
    assert_eq!(signed_decimal_string(i64::MIN), "-9223372036854775808");
    assert_eq!(signed_decimal_string(i64::MAX), "9223372036854775807");
}

#[test]
fn signed_rendering_is_one_to_one_on_samples() {
    let samples = [-100i64, -10, -1, 0, 1, 10, 100, 101];
    for a in samples.iter() {
        for b in samples.iter() {
            if a != b {
                assert_ne!(signed_decimal_string(*a), signed_decimal_string(*b));
            }
        }
    }
}

#[test]
fn actor_options_bits() {
    assert_eq!(VAROBJFIX | METHODJIT, 0x4004);
}
