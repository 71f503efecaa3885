use monitor_core::text::{digit_text, reads_as, text, write_decimal, write_fixed_hex};

#[test]
fn text_copies_a_literal() {
    assert_eq!(text("agent"), "agent".to_string());
    assert!(reads_as(&"agent".to_string(), "agent"));
    assert!(!reads_as(&"agent".to_string(), "agents"));
}

#[test]
fn digits_are_written_in_lower_case() {
    assert_eq!(digit_text(0), "0");
    assert_eq!(digit_text(9), "9");
    assert_eq!(digit_text(10), "a");
    assert_eq!(digit_text(15), "f");
}

#[test]
fn decimal_has_no_leading_zeros() {
    let mut out = String::new();
    write_decimal(0, &mut out);
    assert_eq!(out, "0");
    let mut out = "status ".to_string();
    write_decimal(503, &mut out);
    assert_eq!(out, "status 503");
    let mut out = String::new();
    write_decimal(u64::MAX, &mut out);
    assert_eq!(out, "18446744073709551615");
}

#[test]
fn fixed_hex_pads_and_cuts() {
    let mut out = String::new();
    write_fixed_hex(0, 16, &mut out);
    assert_eq!(out, "0000000000000000");
    let mut out = String::new();
    write_fixed_hex(255, 4, &mut out);
    assert_eq!(out, "00ff");
    let mut out = String::new();
    write_fixed_hex(0x1234, 2, &mut out);
    assert_eq!(out, "34");
    let mut out = String::new();
    write_fixed_hex(u64::MAX, 16, &mut out);
    assert_eq!(out, "ffffffffffffffff");
    let mut out = "x".to_string();
    write_fixed_hex(7, 0, &mut out);
    assert_eq!(out, "x");
}
