use athame::chars::{len_utf8, to_digit};
use athame::text::{chars_of, decimal_digits, decimal_string, join, pad_left, split_lines, string_of};

#[test]
fn numbers_are_written_in_decimal() {
    assert_eq!(decimal_string(0), "0");
    assert_eq!(decimal_string(7), "7");
    assert_eq!(decimal_string(10), "10");
    assert_eq!(decimal_string(1234567890), "1234567890");
    assert_eq!(decimal_string(u64::MAX as u128), "18446744073709551615");
    assert_eq!(decimal_string(u128::MAX), "340282366920938463463374607431768211455");
}

#[test]
fn digits_are_counted() {
    assert_eq!(decimal_digits(0), 1);
    assert_eq!(decimal_digits(9), 1);
    assert_eq!(decimal_digits(10), 2);
    assert_eq!(decimal_digits(99), 2);
    assert_eq!(decimal_digits(100), 3);
    assert_eq!(decimal_digits(u64::MAX), 20);
}

#[test]
fn parts_are_joined() {
    let parts = |list: &[&str]| list.iter().map(|s| s.to_string()).collect::<Vec<String>>();
    assert_eq!(join(&parts(&[]), ", "), "");
    assert_eq!(join(&parts(&["a"]), ", "), "a");
    assert_eq!(join(&parts(&["a", "b", "c"]), ", "), "a, b, c");
    assert_eq!(join(&parts(&["", ""]), "::"), "::");
    assert_eq!(join(&parts(&["a", "b"]), ""), "ab");
}

#[test]
fn text_is_padded_on_the_left() {
    assert_eq!(pad_left("1", 4), "   1");
    assert_eq!(pad_left("1234", 4), "1234");
    assert_eq!(pad_left("12345", 4), "12345");
    assert_eq!(pad_left("", 2), "  ");
    assert_eq!(pad_left("é", 3), "  é");
    assert_eq!(pad_left("x", 0), "x");
}

#[test]
fn text_is_cut_into_lines() {
    let lines = |text: &str| split_lines(text);
    assert_eq!(lines(""), Vec::<String>::new());
    assert_eq!(lines("a"), vec!["a"]);
    assert_eq!(lines("a\n"), vec!["a"]);
    assert_eq!(lines("a\nb"), vec!["a", "b"]);
    assert_eq!(lines("a\r\nb\r\n"), vec!["a", "b"]);
    assert_eq!(lines("\n"), vec![""]);
    assert_eq!(lines("\n\nx"), vec!["", "", "x"]);
    assert_eq!(lines("a\rb\r"), vec!["a\rb\r"]);
    assert_eq!(lines("a\r\r\n"), vec!["a\r"]);
    for text in ["", "a", "a\n", "a\nb", "a\r\nb\r\n", "\n", "\n\nx", "a\rb\r", "a\r\r\n", "é\n\r\nü"] {
        let expected: Vec<String> = text.lines().map(|l| l.to_string()).collect();
        assert_eq!(split_lines(text), expected, "{:?}", text);
    }
}

#[test]
fn characters_are_taken_apart_and_put_together() {
    let chars = chars_of("aé€😀");
    assert_eq!(chars, vec!['a', 'é', '€', '😀']);
    assert_eq!(string_of(&chars, 1, 3), "é€");
    assert_eq!(string_of(&chars, 2, 2), "");
    assert_eq!(string_of(&chars, 0, 4), "aé€😀");
}

#[test]
fn widths_in_utf8() {
    for c in ['\0', 'a', '\x7f', '\u{80}', 'é', '\u{7ff}', '\u{800}', '€', '\u{ffff}', '\u{10000}', '😀', '\u{10ffff}'] {
        assert_eq!(len_utf8(c), c.len_utf8(), "{:?}", c);
    }
}

#[test]
fn digit_values() {
    assert_eq!(to_digit('0', 2), Some(0));
    assert_eq!(to_digit('1', 2), Some(1));
    assert_eq!(to_digit('2', 2), None);
    assert_eq!(to_digit('7', 8), Some(7));
    assert_eq!(to_digit('8', 8), None);
    assert_eq!(to_digit('9', 10), Some(9));
    assert_eq!(to_digit('a', 10), None);
    assert_eq!(to_digit('a', 16), Some(10));
    assert_eq!(to_digit('F', 16), Some(15));
    assert_eq!(to_digit('g', 16), None);
    assert_eq!(to_digit('z', 36), Some(35));
    assert_eq!(to_digit('Z', 36), Some(35));
    assert_eq!(to_digit('_', 36), None);
    assert_eq!(to_digit('٣', 10), None);
    for radix in 2..=36 {
        for c in ['0', '5', '9', 'a', 'f', 'z', 'A', 'Q', 'Z', ' ', '/', ':', '@', '[', '`', '{', 'é'] {
            assert_eq!(to_digit(c, radix), c.to_digit(radix), "{:?} in {}", c, radix);
        }
    }
}
