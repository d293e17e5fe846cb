use dziennik::decimal::{push_decimal, push_decimal_nat, read_u16};

fn written(i: i64) -> String {
    let mut text = String::new();
    push_decimal(&mut text, i);
    text
}

fn written_nat(n: u64) -> String {
    let mut text = String::new();
    push_decimal_nat(&mut text, n);
    text
}

#[test]
fn zero_is_written_as_one_digit() {
    assert_eq!(written(0), "0");
    assert_eq!(written_nat(0), "0");
}

#[test]
fn single_digits_are_written_as_themselves() {
    let expected = ["0", "1", "2", "3", "4", "5", "6", "7", "8", "9"];
    for (digit, text) in expected.iter().enumerate() {
        assert_eq!(written_nat(digit as u64), *text);
    }
}

#[test]
fn several_digits_come_most_significant_first() {
    assert_eq!(written(10), "10");
    assert_eq!(written(12345), "12345");
    assert_eq!(written(1000000), "1000000");
    assert_eq!(written_nat(9876543210), "9876543210");
}

#[test]
fn negative_numbers_start_with_a_minus() {
    assert_eq!(written(-1), "-1");
    assert_eq!(written(-90), "-90");
    assert_eq!(written(-2147483648), "-2147483648");
}

#[test]
fn the_extremes_are_written_in_full() {
    assert_eq!(written(i64::MAX), "9223372036854775807");
    assert_eq!(written(i64::MIN), "-9223372036854775808");
    assert_eq!(written_nat(u64::MAX), "18446744073709551615");
}

#[test]
fn writing_appends_to_what_is_there() {
    let mut text = String::from("id ");
    push_decimal(&mut text, 42);
    text.push_str(" and ");
    push_decimal_nat(&mut text, 7);
    assert_eq!(text, "id 42 and 7");
}

#[test]
fn writing_agrees_with_the_standard_notation() {
    let samples: [i64; 9] = [0, 1, -1, 9, 10, 99, 100, -123456789, 4096];
    for sample in samples.iter() {
        assert_eq!(written(*sample), sample.to_string());
    }
}

#[test]
fn plain_digits_are_read() {
    assert_eq!(read_u16("3000"), Some(3000));
    assert_eq!(read_u16("0"), Some(0));
    assert_eq!(read_u16("8080"), Some(8080));
}

#[test]
fn a_leading_plus_is_accepted_once() {
    assert_eq!(read_u16("+80"), Some(80));
    assert_eq!(read_u16("++80"), None);
    assert_eq!(read_u16("+"), None);
}

#[test]
fn leading_zeros_do_not_count() {
    assert_eq!(read_u16("0003000"), Some(3000));
    assert_eq!(read_u16("000000000000000000000065535"), Some(65535));
}

#[test]
fn the_largest_port_is_read_and_the_next_number_is_not() {
    assert_eq!(read_u16("65535"), Some(65535));
    assert_eq!(read_u16("65536"), None);
    assert_eq!(read_u16("99999999999999999999999"), None);
}

#[test]
fn empty_text_is_no_number() {
    assert_eq!(read_u16(""), None);
}

#[test]
fn anything_but_digits_is_refused() {
    assert_eq!(read_u16("-1"), None);
    assert_eq!(read_u16("-0"), None);
    assert_eq!(read_u16(" 80"), None);
    assert_eq!(read_u16("80 "), None);
    assert_eq!(read_u16("8_0"), None);
    assert_eq!(read_u16("12a"), None);
    assert_eq!(read_u16("0x50"), None);
    assert_eq!(read_u16("8.0"), None);
    assert_eq!(read_u16("/"), None);
    assert_eq!(read_u16(":"), None);
}

#[test]
fn digits_of_other_scripts_are_refused() {
    assert_eq!(read_u16("\u{ff18}\u{ff10}"), None);
    assert_eq!(read_u16("8\u{0660}"), None);
    assert_eq!(read_u16("+\u{00e9}"), None);
}

#[test]
fn reading_agrees_with_the_standard_parser() {
    let samples = [
        "", "+", "-", "0", "+0", "-0", "7", "+7", "007", "65535", "65536", "+65535", "655350",
        "1e3", "80\n", "\t80", "4 2", "+-1", "٣", "１２", "3000",
    ];
    for sample in samples.iter() {
        assert_eq!(read_u16(sample), sample.parse::<u16>().ok(), "on {:?}", sample);
    }
}

#[test]
fn what_is_written_is_read_back() {
    let samples: [u16; 7] = [0, 1, 9, 10, 3000, 32768, 65535];
    for sample in samples.iter() {
        assert_eq!(read_u16(&written_nat(*sample as u64)), Some(*sample));
    }
}
