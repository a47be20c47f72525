use gpu_compute::text::{append_decimal, append_hex, append_list};

fn hex(n: u64, width: u32) -> String {
    let mut text = String::from("0x");
    append_hex(&mut text, n, width);
    text
}

fn decimal(n: u64) -> String {
    let mut text = String::new();
    append_decimal(&mut text, n);
    text
}

#[test]
fn decimal_has_no_leading_zeros() {
    assert_eq!(decimal(0), "0");
    assert_eq!(decimal(7), "7");
    assert_eq!(decimal(1090), "1090");
    assert_eq!(decimal(u64::MAX), "18446744073709551615");
}

#[test]
fn hex_is_filled_up_to_its_width() {
    assert_eq!(hex(0x174, 3), format!("0x{:03X}", 0x174));
    assert_eq!(hex(0xA, 3), format!("0x{:03X}", 0xA));
    assert_eq!(hex(0x12345, 3), format!("0x{:03X}", 0x12345));
    assert_eq!(hex(0, 0), format!("0x{:X}", 0));
    assert_eq!(hex(0, 8), format!("0x{:08X}", 0));
    assert_eq!(hex(u64::MAX, 16), format!("0x{:016X}", u64::MAX));
}

#[test]
fn lists_are_bracketed() {
    let mut text = String::from("shape ");
    append_list(&mut text, &[2, 30, 4]);
    assert_eq!(text, format!("shape {:?}", [2, 30, 4]));
    let mut empty = String::new();
    append_list(&mut empty, &[]);
    assert_eq!(empty, "[]");
}
