use mimic_host::text::{hex_digit, push_decimal, push_hex, push_signed_decimal, push_spaces};

#[test]
fn hex_digits_are_upper_case() {
    let digits: String = (0..16u8).map(hex_digit).collect();
    assert_eq!(digits, "0123456789ABCDEF");
}

#[test]
fn hex_has_exactly_the_width_asked_for() {
    let mut s = String::from(">");
    push_hex(&mut s, 0x2A, 8);
    assert_eq!(s, ">0000002A");
    let mut s = String::new();
    push_hex(&mut s, 0xDEAD_BEEF, 8);
    assert_eq!(s, "DEADBEEF");
    let mut s = String::new();
    push_hex(&mut s, 0x0F, 2);
    assert_eq!(s, "0F");
    let mut s = String::new();
    push_hex(&mut s, 0x1234, 2);
    assert_eq!(s, "34");
    let mut s = String::from("x");
    push_hex(&mut s, 0x1234, 0);
    assert_eq!(s, "x");
}

#[test]
fn hex_agrees_with_the_standard_formatter() {
    for value in [0u32, 1, 9, 10, 15, 16, 255, 256, 0x0040_0000, 0x1001_0000, u32::MAX] {
        let mut s = String::new();
        push_hex(&mut s, value, 8);
        assert_eq!(s, format!("{:08X}", value));
    }
    for value in 0..=255u32 {
        let mut s = String::new();
        push_hex(&mut s, value, 2);
        assert_eq!(s, format!("{:02X}", value));
    }
}

#[test]
fn decimal_has_no_leading_zeros() {
    for (value, text) in [
        (0u32, "0"),
        (7, "7"),
        (9, "9"),
        (10, "10"),
        (42, "42"),
        (100, "100"),
        (1_000_000, "1000000"),
        (u32::MAX, "4294967295"),
    ] {
        let mut s = String::from("n=");
        push_decimal(&mut s, value);
        assert_eq!(s, format!("n={}", text));
    }
}

#[test]
fn signed_decimal_puts_a_minus_before_negative_values() {
    for (value, text) in [
        (0i32, "0"),
        (42, "42"),
        (-1, "-1"),
        (-42, "-42"),
        (i32::MAX, "2147483647"),
        (i32::MIN, "-2147483648"),
    ] {
        let mut s = String::new();
        push_signed_decimal(&mut s, value);
        assert_eq!(s, text);
    }
}

#[test]
fn spaces_are_appended() {
    let mut s = String::from("a");
    push_spaces(&mut s, 0);
    assert_eq!(s, "a");
    push_spaces(&mut s, 3);
    assert_eq!(s, "a   ");
}
