use wallet_batch::text::{characters, decimal_text, digit_of, is_space, parse_unsigned, trim};

#[test]
fn decimal_text_writes_numbers_as_std_does() {
    assert_eq!(decimal_text(0), "0");
    assert_eq!(decimal_text(7), "7");
    assert_eq!(decimal_text(10), "10");
    assert_eq!(decimal_text(1000), "1000");
    assert_eq!(decimal_text(1234567890), "1234567890");
    assert_eq!(decimal_text(u64::MAX), "18446744073709551615");
    let mut n: u64 = 1;
    for _ in 0..60 {
        assert_eq!(decimal_text(n), n.to_string());
        assert_eq!(decimal_text(n - 1), (n - 1).to_string());
        n = n.wrapping_mul(3).wrapping_add(1);
    }
}

#[test]
fn characters_follow_the_text() {
    assert_eq!(characters(""), Vec::<char>::new());
    assert_eq!(characters("a\u{e9}\u{3000}z"), vec!['a', '\u{e9}', '\u{3000}', 'z']);
}

#[test]
fn digit_of_tells_digits() {
    assert_eq!(digit_of('0'), Some(0));
    assert_eq!(digit_of('9'), Some(9));
    assert_eq!(digit_of('/'), None);
    assert_eq!(digit_of(':'), None);
    assert_eq!(digit_of('a'), None);
    assert_eq!(digit_of('\u{663}'), None);
}

#[test]
fn parse_unsigned_reads_literals() {
    assert_eq!(parse_unsigned("0", u64::MAX), Some(0));
    assert_eq!(parse_unsigned("1000", u64::MAX), Some(1000));
    assert_eq!(parse_unsigned("+1000", u64::MAX), Some(1000));
    assert_eq!(parse_unsigned("0007", u64::MAX), Some(7));
    assert_eq!(parse_unsigned("18446744073709551615", u64::MAX), Some(u64::MAX));
}

#[test]
fn parse_unsigned_refuses_what_is_no_literal() {
    assert_eq!(parse_unsigned("", u64::MAX), None);
    assert_eq!(parse_unsigned("+", u64::MAX), None);
    assert_eq!(parse_unsigned("-", u64::MAX), None);
    assert_eq!(parse_unsigned("-1", u64::MAX), None);
    assert_eq!(parse_unsigned("++1", u64::MAX), None);
    assert_eq!(parse_unsigned("1+", u64::MAX), None);
    assert_eq!(parse_unsigned(" 1", u64::MAX), None);
    assert_eq!(parse_unsigned("1 ", u64::MAX), None);
    assert_eq!(parse_unsigned("1.0", u64::MAX), None);
    assert_eq!(parse_unsigned("1e3", u64::MAX), None);
    assert_eq!(parse_unsigned("0x10", u64::MAX), None);
    assert_eq!(parse_unsigned("\u{663}", u64::MAX), None);
}

#[test]
fn parse_unsigned_refuses_numbers_above_the_bound() {
    assert_eq!(parse_unsigned("18446744073709551616", u64::MAX), None);
    assert_eq!(parse_unsigned("99999999999999999999999999", u64::MAX), None);
    assert_eq!(parse_unsigned("256", 255), None);
    assert_eq!(parse_unsigned("255", 255), Some(255));
    assert_eq!(parse_unsigned("9", 5), None);
    assert_eq!(parse_unsigned("0", 0), Some(0));
    assert_eq!(parse_unsigned("1", 0), None);
    assert_eq!(parse_unsigned("184467440737095516150", u64::MAX), None);
}

#[test]
fn parse_unsigned_agrees_with_std() {
    let samples = [
        "", "+", "-", "0", "+0", "-0", "00", "1", "12", "+12", "12+", "1 2", "abc", "1a", "a1",
        "18446744073709551615", "18446744073709551616", "+18446744073709551615",
        "000000000000000000000000000001", "4294967296", "\u{ff11}", "1\n", "\t1", "١",
    ];
    for text in samples {
        assert_eq!(parse_unsigned(text, u64::MAX), text.parse::<u64>().ok(), "for {:?}", text);
        assert_eq!(
            parse_unsigned(text, u32::MAX as u64),
            text.parse::<u32>().ok().map(|v| v as u64),
            "for {:?}",
            text
        );
    }
}

#[test]
fn written_numbers_read_back() {
    for n in [0u64, 1, 9, 10, 99, 100, 1000, 65535, 4294967296, u64::MAX] {
        assert_eq!(parse_unsigned(&decimal_text(n), u64::MAX), Some(n));
    }
}

#[test]
fn is_space_agrees_with_std_on_every_character() {
    for code in 0u32..=0x10FFFF {
        if let Some(c) = char::from_u32(code) {
            assert_eq!(is_space(c), c.is_whitespace(), "for U+{:04X}", code);
        }
    }
}

#[test]
fn trim_removes_white_space_at_both_ends() {
    assert_eq!(trim(""), "");
    assert_eq!(trim("   "), "");
    assert_eq!(trim("abc"), "abc");
    assert_eq!(trim("  abc"), "abc");
    assert_eq!(trim("abc\n"), "abc");
    assert_eq!(trim("\t a b \r\n"), "a b");
    assert_eq!(trim("\u{3000}1.5 SOL\u{a0}\u{2028}"), "1.5 SOL");
    assert_eq!(trim("\u{200b}x\u{200b}"), "\u{200b}x\u{200b}");
}

#[test]
fn trim_agrees_with_std() {
    let samples = [
        "", " ", "\n", "a", " a", "a ", " a ", "  a  b  ", "\u{85}a\u{1680}", "é ", " 日本 ",
        "\u{2000}\u{200a}x\u{205f}\u{202f}", "x\u{feff}", "\u{b}\u{c}x\u{1c}",
    ];
    for text in samples {
        assert_eq!(trim(text), text.trim(), "for {:?}", text);
    }
}
