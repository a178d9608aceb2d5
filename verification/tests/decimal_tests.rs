use std::num::IntErrorKind;

use sinan_backend::decimal::{parse_u16, parse_usize, push_decimal, IntParseError};

fn std_kind(kind: &IntErrorKind) -> IntParseError {
    match kind {
        IntErrorKind::Empty => IntParseError::Empty,
        IntErrorKind::InvalidDigit => IntParseError::InvalidDigit,
        IntErrorKind::PosOverflow => IntParseError::PosOverflow,
        other => panic!("unexpected kind {:?}", other),
    }
}

const SAMPLES: &[&str] = &[
    "", "+", "-", "-0", "0", "+0", "00012", "+12", "8123", "65535", "65536", "99999x", "12a", "a12",
    " 12", "12 ", "１２", "+-1", "18446744073709551615", "18446744073709551616", "4294967296",
];

#[test]
fn u16_parsing_matches_std() {
    for s in SAMPLES {
        let expected = s.parse::<u16>().map_err(|e| std_kind(e.kind()));
        assert_eq!(parse_u16(s), expected, "input {:?}", s);
    }
}

#[test]
fn usize_parsing_matches_std() {
    for s in SAMPLES {
        let expected = s.parse::<usize>().map_err(|e| std_kind(e.kind()));
        assert_eq!(parse_usize(s), expected, "input {:?}", s);
    }
}

#[test]
fn error_messages_match_std() {
    for s in SAMPLES {
        if let Err(e) = s.parse::<u16>() {
            assert_eq!(std_kind(e.kind()).message(), e.to_string());
        }
    }
    assert_eq!(IntParseError::Empty.message(), "cannot parse integer from empty string");
}

#[test]
fn decimal_text_matches_display_and_reads_back() {
    for n in [0u64, 7, 10, 99, 100, 8080, 65535, u32::MAX as u64, u64::MAX] {
        let mut s = String::from("port=");
        push_decimal(&mut s, n);
        assert_eq!(s, format!("port={}", n));
        assert_eq!(sinan_backend::decimal::parse_unsigned(&s[5..], u64::MAX), Ok(n));
    }
}
