use testdata::my_struct::MyStruct;
use testdata::text::{check_empty, decimal_string};

#[test]
fn check_empty_on_empty_text() {
    assert!(check_empty(""));
    assert!(check_empty(&String::new()));
}

#[test]
fn check_empty_on_text_with_characters() {
    assert!(!check_empty("a"));
    assert!(!check_empty("hello"));
    assert!(!check_empty("é"));
}

#[test]
fn check_empty_counts_white_space_as_text() {
    assert!(!check_empty(" "));
    assert!(!check_empty("\n"));
    assert!(!check_empty("\t"));
    assert!(!check_empty("\0"));
}

#[test]
fn decimal_string_of_single_digits() {
    let digits = ["0", "1", "2", "3", "4", "5", "6", "7", "8", "9"];
    let mut n: u32 = 0;
    for expected in digits {
        assert_eq!(decimal_string(n), expected);
        n += 1;
    }
}

#[test]
fn decimal_string_of_longer_numbers() {
    assert_eq!(decimal_string(10), "10");
    assert_eq!(decimal_string(30), "30");
    assert_eq!(decimal_string(99), "99");
    assert_eq!(decimal_string(100), "100");
    assert_eq!(decimal_string(1_002_003), "1002003");
    assert_eq!(decimal_string(1_234_567_890), "1234567890");
}

#[test]
fn decimal_string_of_largest_number() {
    assert_eq!(decimal_string(u32::MAX), "4294967295");
}

#[test]
fn decimal_string_has_no_leading_zero() {
    let mut n: u32 = 1;
    for _ in 0..9 {
        n *= 10;
        let text = decimal_string(n);
        assert!(text.starts_with('1'));
        assert_eq!(text.len(), decimal_string(n - 1).len() + 1);
    }
}

#[test]
fn decimal_string_reads_back_as_the_number() {
    let numbers = [0, 1, 9, 10, 11, 255, 256, 65_535, 65_536, 999_999_999, u32::MAX];
    for n in numbers {
        assert_eq!(decimal_string(n).parse::<u32>(), Ok(n));
    }
}

#[test]
fn written_form_of_my_struct_is_empty() {
    let record = MyStruct { field: String::from("anything") };
    assert_eq!(record.to_text(), "");
    assert!(check_empty(&record.to_text()));
    assert_eq!(record.field, "anything");
}

#[test]
fn written_form_does_not_depend_on_the_field() {
    let blank = MyStruct { field: String::new() };
    let long = MyStruct { field: "x".repeat(1000) };
    assert_eq!(blank.to_text(), long.to_text());
}
