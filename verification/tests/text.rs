use neuromorph_guard::text::{
    append_decimal, append_fixed, append_magnitude, append_padded, magnitude_of, power_of_ten,
};

#[test]
fn decimal_digits_of_numbers() {
    let mut s = String::from("n=");
    append_decimal(&mut s, 0);
    s.push(' ');
    append_decimal(&mut s, 7);
    s.push(' ');
    append_decimal(&mut s, 10);
    s.push(' ');
    append_decimal(&mut s, 4096);
    s.push(' ');
    append_decimal(&mut s, u64::MAX);
    assert_eq!(s, "n=0 7 10 4096 18446744073709551615");
}

#[test]
fn padded_digits_keep_width() {
    let mut s = String::new();
    append_padded(&mut s, 7, 3);
    s.push('|');
    append_padded(&mut s, 12345, 3);
    s.push('|');
    append_padded(&mut s, 9, 0);
    s.push('|');
    append_padded(&mut s, 0, 6);
    assert_eq!(s, "007|345||000000");
}

#[test]
fn fixed_text_rounds_half_up() {
    let mut s = String::new();
    append_magnitude(&mut s, 225_000, 3);
    s.push(' ');
    append_magnitude(&mut s, 225_499, 3);
    s.push(' ');
    append_magnitude(&mut s, 225_500, 3);
    s.push(' ');
    append_magnitude(&mut s, 999_999, 2);
    s.push(' ');
    append_magnitude(&mut s, 1_234_567, 6);
    s.push(' ');
    append_magnitude(&mut s, 1_500_000, 0);
    s.push(' ');
    append_magnitude(&mut s, 0, 2);
    assert_eq!(s, "0.225 0.225 0.226 1.00 1.234567 2. 0.00");
    let mut big = String::new();
    append_magnitude(&mut big, u64::MAX, 6);
    assert_eq!(big, "18446744073709.551615");
    let mut big = String::new();
    append_magnitude(&mut big, u64::MAX, 0);
    assert_eq!(big, "18446744073710.");
}

#[test]
fn fixed_text_of_signed_quantities() {
    let mut s = String::new();
    append_fixed(&mut s, -250_000, 6);
    s.push(' ');
    append_fixed(&mut s, 250_000, 2);
    s.push(' ');
    append_fixed(&mut s, -1, 3);
    s.push(' ');
    append_fixed(&mut s, i64::MIN, 6);
    assert_eq!(s, "-0.250000 0.25 -0.000 -9223372036854.775808");
    assert_eq!(magnitude_of(i64::MIN), 9_223_372_036_854_775_808);
    assert_eq!(magnitude_of(-3), 3);
    assert_eq!(magnitude_of(3), 3);
    assert_eq!(power_of_ten(0), 1);
    assert_eq!(power_of_ten(3), 1_000);
    assert_eq!(power_of_ten(6), 1_000_000);
}
