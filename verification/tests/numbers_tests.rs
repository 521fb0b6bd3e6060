use ci_failure_core::numbers::dec_i64;

#[test]
fn decimal_rendering() {
    assert_eq!(dec_i64(0), "0");
    assert_eq!(dec_i64(7), "7");
    assert_eq!(dec_i64(42), "42");
    assert_eq!(dec_i64(1000), "1000");
    assert_eq!(dec_i64(-7), "-7");
    assert_eq!(dec_i64(i64::MAX), "9223372036854775807");
    assert_eq!(dec_i64(i64::MIN), "-9223372036854775808");
}
