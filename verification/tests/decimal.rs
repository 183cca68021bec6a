use memo_app::decimal::{parse_decimal, write_decimal};

#[test]
fn parse_decimal_reads_what_the_standard_parser_reads() {
    for text in [
        "0", "7", "3600", "+3600", "0003600", "18446744073709551615", "18446744073709551616",
        "18446744073709551620", "99999999999999999999", "", "+", "-", "-0", "-5", "++5", "5+",
        "1_000", "0x10", "12a", " 1", "1 ", "١٢٣", "+0", "00",
    ] {
        assert_eq!(parse_decimal(text), text.parse::<u64>().ok(), "{:?}", text);
    }
    assert_eq!(parse_decimal("3600"), Some(3600));
    assert_eq!(parse_decimal("18446744073709551615"), Some(u64::MAX));
    assert_eq!(parse_decimal("18446744073709551616"), None);
}

#[test]
fn write_decimal_writes_what_the_standard_library_writes() {
    for n in [0u64, 1, 9, 10, 11, 99, 100, 101, 200, 404, 500, 999, 1000, 65535, 1 << 32, u64::MAX] {
        assert_eq!(write_decimal(n), n.to_string());
    }
    assert_eq!(write_decimal(404), "404");
    assert_eq!(write_decimal(u64::MAX), "18446744073709551615");
}

#[test]
fn what_is_written_is_read_back() {
    for n in [0u64, 7, 10, 3600, 86_400, u64::MAX - 1, u64::MAX] {
        assert_eq!(parse_decimal(&write_decimal(n)), Some(n));
    }
}
