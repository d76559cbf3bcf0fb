use etherscan::text::{decimal_text, hex_tag_text, join_with_commas};

#[test]
fn hex_tag_of_255() {
    assert_eq!(hex_tag_text(255), "0xff");
}

#[test]
fn hex_tag_of_zero() {
    assert_eq!(hex_tag_text(0), "0x0");
}

#[test]
fn hex_tag_of_larger_values() {
    assert_eq!(hex_tag_text(4096), "0x1000");
    assert_eq!(hex_tag_text(16), "0x10");
    assert_eq!(hex_tag_text(0xdead_beef), "0xdeadbeef");
    assert_eq!(hex_tag_text(i64::MAX), "0x7fffffffffffffff");
}

#[test]
fn hex_tag_of_negative_is_twos_complement() {
    assert_eq!(hex_tag_text(-1), "0xffffffffffffffff");
    assert_eq!(hex_tag_text(i64::MIN), "0x8000000000000000");
}

#[test]
fn decimal_of_integers() {
    assert_eq!(decimal_text(0), "0");
    assert_eq!(decimal_text(7), "7");
    assert_eq!(decimal_text(12345), "12345");
    assert_eq!(decimal_text(-42), "-42");
    assert_eq!(decimal_text(i64::MAX), "9223372036854775807");
    assert_eq!(decimal_text(i64::MIN), "-9223372036854775808");
}

#[test]
fn join_three_addresses() {
    let parts: Vec<&str> = vec!["0xA", "0xB", "0xC"];
    assert_eq!(join_with_commas(&parts), "0xA,0xB,0xC");
}

#[test]
fn join_single_address_has_no_comma() {
    let parts: Vec<&str> = vec!["0xA"];
    assert_eq!(join_with_commas(&parts), "0xA");
}

#[test]
fn join_nothing_is_empty() {
    let parts: Vec<&str> = vec![];
    assert_eq!(join_with_commas(&parts), "");
}
