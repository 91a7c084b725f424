use meditracker::text::{decimal_string, parse_number};

#[test]
fn decimal_string_writes_plain_numerals() {
    assert_eq!(decimal_string(0), "0");
    assert_eq!(decimal_string(7), "7");
    assert_eq!(decimal_string(10), "10");
    assert_eq!(decimal_string(40), "40");
    assert_eq!(decimal_string(109), "109");
    assert_eq!(decimal_string(1_000_000), "1000000");
    assert_eq!(decimal_string(u32::MAX), "4294967295");
}

#[test]
fn decimal_string_agrees_with_the_standard_library() {
    let mut n: u32 = 0;
    for step in 0..400u32 {
        assert_eq!(decimal_string(n), n.to_string());
        n = n.wrapping_mul(31).wrapping_add(step * 7919 + 1);
    }
}

#[test]
fn parse_number_reads_digits() {
    assert_eq!(parse_number("0"), Some(0));
    assert_eq!(parse_number("40"), Some(40));
    assert_eq!(parse_number("007"), Some(7));
    assert_eq!(parse_number("+12"), Some(12));
    assert_eq!(parse_number("4294967295"), Some(u32::MAX));
    assert_eq!(parse_number("0000000000004294967295"), Some(u32::MAX));
}

#[test]
fn parse_number_refuses_everything_else() {
    for text in [
        "", "+", "-", "-1", "-0", "++1", "+-1", "1+", "4294967296", "99999999999999999999", "1.5",
        "1e3", "0x10", " 1", "1 ", "1_000", "forty", "٣", "1２", "\n",
    ] {
        assert_eq!(parse_number(text), None, "{:?}", text);
    }
}

#[test]
fn parse_number_agrees_with_the_standard_library() {
    for text in [
        "", "0", "1", "9", "10", "+0", "+", "-", "-5", "+5", "05", "4294967295", "4294967296",
        "42949672950", "429496729a", "a", "12a", "a12", "1 2", "٣", "+٣", "１", "00", "+00",
        "3000000000", "5000000000",
    ] {
        assert_eq!(parse_number(text), text.parse::<u32>().ok(), "{:?}", text);
    }
}

#[test]
fn parse_number_reads_back_what_decimal_string_writes() {
    for n in [0u32, 1, 9, 10, 99, 100, 12345, 4294967294, u32::MAX] {
        assert_eq!(parse_number(&decimal_string(n)), Some(n));
    }
}
