use ra4m1_core::text::dec_digits;
use ra4m1_core::text::format_temperature;
use ra4m1_core::text::frac4_digits;

#[test]
fn formats_23_5_degrees_right_aligned() {
    assert_eq!(format_temperature(235_000), b" 23.5000 C\r\n");
}

#[test]
fn formats_zero() {
    assert_eq!(format_temperature(0), b"  0.0000 C\r\n");
}

#[test]
fn formats_negative_fraction() {
    assert_eq!(format_temperature(-5_250), b" -0.5250 C\r\n");
}

#[test]
fn formats_value_wider_than_the_field() {
    // a value too wide for eight characters is not cut
    assert_eq!(format_temperature(1_234_567_890), b"123456.7890 C\r\n");
}

#[test]
fn formats_negative_whole_degrees() {
    assert_eq!(format_temperature(-123_456), b"-12.3456 C\r\n");
}

#[test]
fn decimal_digits_most_significant_first() {
    assert_eq!(dec_digits(0), b"0");
    assert_eq!(dec_digits(7), b"7");
    assert_eq!(dec_digits(4_080_921), b"4080921");
    assert_eq!(dec_digits(u32::MAX), b"4294967295");
}

#[test]
fn fraction_digits_are_zero_padded() {
    assert_eq!(frac4_digits(0), b"0000");
    assert_eq!(frac4_digits(42), b"0042");
    assert_eq!(frac4_digits(9999), b"9999");
}
