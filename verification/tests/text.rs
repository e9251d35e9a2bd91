use io_service::digits::parse_u32_digits;
use io_service::digits::parse_u64_digits;
use io_service::digits::parse_usize_or_zero;
use io_service::error::OtaErr;
use io_service::gpio::parse_temperature;
use io_service::json::make_hash;

#[test]
fn temperature_text_parses_after_trimming() {
    assert_eq!(parse_temperature("45"), Ok(45));
    assert_eq!(parse_temperature("  45\n"), Ok(45));
    assert_eq!(parse_temperature("\t70\r\n"), Ok(70));
    assert_eq!(parse_temperature("0"), Ok(0));
    assert_eq!(parse_temperature("4294967295"), Ok(u32::MAX));
}

#[test]
fn temperature_decode_failures_are_one_error_kind() {
    assert_eq!(parse_temperature(""), Err(OtaErr::ConvertTempErr));
    assert_eq!(parse_temperature("   \n"), Err(OtaErr::ConvertTempErr));
    assert_eq!(parse_temperature("abc"), Err(OtaErr::ConvertTempErr));
    assert_eq!(parse_temperature("45C"), Err(OtaErr::ConvertTempErr));
    assert_eq!(parse_temperature("4 5"), Err(OtaErr::ConvertTempErr));
    assert_eq!(parse_temperature("-5"), Err(OtaErr::ConvertTempErr));
    // one past the largest representable reading
    assert_eq!(parse_temperature("4294967296"), Err(OtaErr::ConvertTempErr));
}

#[test]
fn decimal_parsers_accept_digits_only() {
    assert_eq!(parse_u32_digits("0"), Some(0));
    assert_eq!(parse_u32_digits("3311"), Some(3311));
    assert_eq!(parse_u32_digits("4294967295"), Some(u32::MAX));
    assert_eq!(parse_u32_digits("4294967296"), None);
    assert_eq!(parse_u32_digits(""), None);
    assert_eq!(parse_u32_digits("+3"), None);
    assert_eq!(parse_u32_digits("1 2"), None);
    assert_eq!(parse_u64_digits("18446744073709551615"), Some(u64::MAX));
    assert_eq!(parse_u64_digits("18446744073709551616"), None);
    assert_eq!(parse_usize_or_zero("12"), 12);
    assert_eq!(parse_usize_or_zero("x"), 0);
    assert_eq!(parse_usize_or_zero(""), 0);
}

#[test]
fn device_hash_has_the_wire_shape() {
    let mac = "Mi8ea43769e4d6Qb".to_string();
    assert_eq!(make_hash(&mac, 0), "io-Mi8ea43769e4d6Qb-0");
    assert_eq!(make_hash(&mac, 7), "io-Mi8ea43769e4d6Qb-7");
    assert_eq!(make_hash(&mac, 1234), "io-Mi8ea43769e4d6Qb-1234");
    let empty = String::new();
    assert_eq!(make_hash(&empty, 10), "io--10");
}
