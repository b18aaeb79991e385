use valihuuto::text::{joined, decimal, is_blank, or_empty, white_space};

#[test]
fn white_space_is_what_std_calls_white_space() {
    let mut n: u32 = 0;
    while n <= 0x10FFFF {
        if let Some(c) = char::from_u32(n) {
            assert_eq!(white_space(c), c.is_whitespace());
        }
        n += 1;
    }
}

#[test]
fn blank_texts_are_those_that_trim_to_nothing() {
    for s in ["", " ", "\n\t\r ", "\u{3000}\u{a0}", " a ", "{}", "\u{200b}", "x"] {
        assert_eq!(is_blank(s), s.trim().is_empty());
    }
    assert!(is_blank(""));
    assert!(is_blank(" \n"));
    assert!(!is_blank(" . "));
}

#[test]
fn decimal_writes_what_std_writes() {
    let samples: [i128; 16] = [
        0, 1, 9, 10, 11, 99, 100, 101, 1700000000123, -1, -9, -10, -1234567890,
        i64::MAX as i128, i64::MIN as i128, usize::MAX as i128,
    ];
    for n in samples {
        assert_eq!(decimal(n), n.to_string());
    }
    assert_eq!(decimal(i128::MAX), i128::MAX.to_string());
    assert_eq!(decimal(i128::MIN), i128::MIN.to_string());
    assert_eq!(decimal(0), "0");
    assert_eq!(decimal(-42), "-42");
    assert_eq!(decimal(1000), "1000");
}

#[test]
fn joined_and_or_empty() {
    assert_eq!(joined("ab", "cd"), "abcd");
    assert_eq!(joined("", ""), "");
    assert_eq!(or_empty(&Some("x".to_string())), "x");
    assert_eq!(or_empty(&None), "");
}
