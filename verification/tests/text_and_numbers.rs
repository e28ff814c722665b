use rme_cli::number::{half_to_text, int_error_message, int_to_text, parse_i32, IntError};
use rme_cli::text::{contains, decimal_point, first_word_of, lines, same_text, starts_with, trim};

#[test]
fn lines_split_like_std() {
    let text = "foo\nbar\n\r\nbaz\r";
    let got = lines(text);
    let want: Vec<String> = text.lines().map(|l| l.to_string()).collect();
    assert_eq!(got, want);
    assert_eq!(got, vec!["foo", "bar", "", "baz\r"]);
}

#[test]
fn lines_of_empty_and_trailing_newline() {
    assert!(lines("").is_empty());
    assert_eq!(lines("a\n"), vec!["a"]);
    assert_eq!(lines("\n"), vec![""]);
    assert_eq!(lines("a\r\nb"), vec!["a", "b"]);
}

#[test]
fn trim_removes_unicode_space() {
    assert_eq!(trim("  \t x y \u{3000}\n"), "x y");
    assert_eq!(trim("   "), "");
    assert_eq!(trim("\u{a0}abc\u{2003}"), "\u{a0}abc\u{2003}".trim());
}

#[test]
fn first_word_matches_split_whitespace() {
    assert_eq!(first_word_of(" 1 [Pro            ]: USB-Audio"), Some("1".to_string()));
    assert_eq!(first_word_of("   "), None);
    assert_eq!(first_word_of(""), None);
    assert_eq!(first_word_of("word"), Some("word".to_string()));
}

#[test]
fn prefix_infix_and_equality() {
    assert!(starts_with("line1", "line"));
    assert!(!starts_with("lin", "line"));
    assert!(contains("  Mono: Playback [on]", "[on]"));
    assert!(!contains("  Mono: Playback [off]", "[on]"));
    assert!(contains("abc", ""));
    assert!(same_text("mic1", "mic1"));
    assert!(!same_text("mic1", "mic10"));
}

#[test]
fn decimal_comma_becomes_point() {
    assert_eq!(decimal_point("3,5"), "3.5");
    assert_eq!(decimal_point("3.5"), "3.5");
    assert_eq!(decimal_point(",,"), "..");
}

#[test]
fn parse_i32_like_std() {
    for s in ["0", "42", "+7", "-7", "2147483647", "-2147483648", "", "+", "-", "2147483648",
        "-2147483649", "12a", "٣", " 1", "007"]
    {
        let std = s.parse::<i32>();
        let ours = parse_i32(s);
        match (std, ours) {
            (Ok(a), Ok(b)) => assert_eq!(a, b, "{}", s),
            (Err(e), Err(k)) => assert_eq!(e.to_string(), int_error_message(k), "{}", s),
            (a, b) => panic!("{}: std {:?}, ours {:?}", s, a, b),
        }
    }
    assert_eq!(parse_i32(""), Err(IntError::Empty));
    assert_eq!(parse_i32("-"), Err(IntError::InvalidDigit));
    assert_eq!(parse_i32("99999999999"), Err(IntError::PosOverflow));
    assert_eq!(parse_i32("-99999999999"), Err(IntError::NegOverflow));
}

#[test]
fn integers_written_like_display() {
    for n in [0, 7, 10, 65536, -1, -10, i32::MAX, i32::MIN] {
        assert_eq!(int_to_text(n), n.to_string());
    }
}

#[test]
fn int_text_reads_back() {
    for n in [0, 9, 10, 12345, -12345, i32::MAX, i32::MIN] {
        assert_eq!(parse_i32(&int_to_text(n)), Ok(n));
    }
}

#[test]
fn halves_written_like_float_display() {
    for n in [0, 1, 2, 7, 18, -1, -2, -3, i32::MAX, i32::MIN] {
        assert_eq!(half_to_text(n), (n as f64 / 2.0).to_string(), "{}", n);
    }
    assert_eq!(half_to_text(7), "3.5");
    assert_eq!(half_to_text(6), "3");
}
