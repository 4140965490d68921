use ghostscript::text::{push_decimal, push_digits, push_hex};

fn decimal(i: i32) -> String {
    let mut out = String::new();
    push_decimal(&mut out, i);
    out
}

fn hex(n: u64) -> String {
    let mut out = String::new();
    push_hex(&mut out, n);
    out
}

#[test]
fn decimal_matches_the_standard_form() {
    for i in [0, 1, 9, 10, 11, 99, 100, 101, 65535, -1, -9, -10, -101, i32::MAX, i32::MIN] {
        assert_eq!(decimal(i), format!("{}", i));
    }
}

#[test]
fn hex_matches_the_standard_lower_case_form() {
    for n in [0u64, 1, 9, 10, 15, 16, 17, 255, 256, 0xdead_beef, u64::from(u32::MAX), u64::MAX] {
        assert_eq!(hex(n), format!("{:x}", n));
    }
}

#[test]
fn digits_are_appended_to_what_is_there() {
    let mut out = String::from("n=");
    push_decimal(&mut out, -7);
    out.push(';');
    push_hex(&mut out, 0xabc);
    assert_eq!(out, "n=-7;abc");
}

#[test]
fn digits_in_other_bases() {
    let mut out = String::new();
    push_digits(&mut out, 5, 2);
    assert_eq!(out, "101");
    let mut out = String::new();
    push_digits(&mut out, 0, 2);
    assert_eq!(out, "0");
    let mut out = String::new();
    push_digits(&mut out, 511, 8);
    assert_eq!(out, "777");
}
