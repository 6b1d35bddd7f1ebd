use wcal::text::{
    chars_of, digits_only, push_decimal, push_digit, push_four_digits, push_signed,
    read_decimal, read_unsigned, same_text, spells,
};

#[test]
fn characters_of_a_text() {
    assert_eq!(chars_of(""), Vec::<char>::new());
    assert_eq!(chars_of("w12"), vec!['w', '1', '2']);
    assert_eq!(chars_of("aé中🙂"), vec!['a', 'é', '中', '🙂']);
}

#[test]
fn same_text_compares_all_characters() {
    assert!(same_text("", ""));
    assert!(same_text("Winter", "Winter"));
    assert!(!same_text("Winter", "Winte"));
    assert!(!same_text("Winte", "Winter"));
    assert!(!same_text("Winter", "Wintér"));
    assert!(!same_text("Winter", "winter"));
    assert!(same_text("é中", "é中"));
}

#[test]
fn spells_compares_a_part() {
    let text = chars_of("2024-w12");
    assert!(spells(&text, 4, 6, "-w"));
    assert!(spells(&text, 0, 4, "2024"));
    assert!(spells(&text, 0, 8, "2024-w12"));
    assert!(spells(&text, 3, 3, ""));
    assert!(!spells(&text, 4, 6, "-W"));
    assert!(!spells(&text, 4, 6, "-w1"));
    assert!(!spells(&text, 4, 7, "-w"));
    assert!(!spells(&text, 0, 0, "2"));
}

#[test]
fn digits_only_looks_at_a_part() {
    let text = chars_of("2024-w12");
    assert!(digits_only(&text, 0, 4));
    assert!(digits_only(&text, 6, 8));
    assert!(digits_only(&text, 2, 2));
    assert!(!digits_only(&text, 0, 5));
    assert!(!digits_only(&text, 5, 8));
    let text = chars_of("１２/:");
    assert!(!digits_only(&text, 0, 1));
    assert!(!digits_only(&text, 2, 3));
    assert!(!digits_only(&text, 3, 4));
}

#[test]
fn decimal_digits_are_read_in_base_ten() {
    let text = chars_of("0042x4294967295y4294967296");
    assert_eq!(read_decimal(&text, 0, 4), Some(42));
    assert_eq!(read_decimal(&text, 0, 0), Some(0));
    assert_eq!(read_decimal(&text, 3, 4), Some(2));
    assert_eq!(read_decimal(&text, 5, 15), Some(4294967295));
    assert_eq!(read_decimal(&text, 16, 26), None);
    assert_eq!(read_decimal(&text, 16, 25), Some(429496729));
    let text = chars_of("99999999999999999999999999999");
    assert_eq!(read_decimal(&text, 0, text.len()), None);
    let text = chars_of("00000000000000000000000000007");
    assert_eq!(read_decimal(&text, 0, text.len()), Some(7));
}

#[test]
fn unsigned_numbers_are_read_as_std_reads_them() {
    for text in [
        "0", "7", "12", "007", "+5", "+", "", "-5", "5+", " 5", "5 ", "4294967295",
        "4294967296", "+4294967295", "++5", "1_000", "0x10", "٣", "１２", "12a", "a12",
        "00000000000000000000000004294967295", "99999999999999999999",
    ] {
        let found = chars_of(text);
        assert_eq!(read_unsigned(&found, 0, found.len()), text.parse::<u32>().ok(), "{}", text);
    }
    let text = chars_of("w+12..");
    assert_eq!(read_unsigned(&text, 1, 4), Some(12));
    assert_eq!(read_unsigned(&text, 2, 4), Some(12));
    assert_eq!(read_unsigned(&text, 1, 2), None);
    assert_eq!(read_unsigned(&text, 1, 5), None);
    assert_eq!(read_unsigned(&text, 3, 3), None);
}

#[test]
fn numbers_are_written_in_base_ten() {
    let mut text = String::from("n=");
    push_decimal(&mut text, 0);
    assert_eq!(text, "n=0");
    push_decimal(&mut text, 7);
    push_decimal(&mut text, 10);
    push_decimal(&mut text, 4294967295);
    assert_eq!(text, "n=07104294967295");
    for n in [0u32, 1, 9, 10, 11, 99, 100, 101, 12345, 1000000, u32::MAX] {
        let mut text = String::new();
        push_decimal(&mut text, n);
        assert_eq!(text, n.to_string());
    }
}

#[test]
fn digits_are_written_one_by_one() {
    let mut text = String::new();
    for d in 0..10 {
        push_digit(&mut text, d);
    }
    assert_eq!(text, "0123456789");
}

#[test]
fn four_digits_are_written_with_zeros_in_front() {
    for n in [0u32, 5, 42, 999, 1000, 2024, 9999] {
        let mut text = String::from("y");
        push_four_digits(&mut text, n);
        assert_eq!(text, format!("y{:04}", n));
    }
}

#[test]
fn negative_numbers_are_written_with_a_minus() {
    for n in [0i32, 1, -1, 42, -42, i32::MAX, i32::MIN, -2147483647] {
        let mut text = String::from("<");
        push_signed(&mut text, n);
        assert_eq!(text, format!("<{}", n));
    }
}
