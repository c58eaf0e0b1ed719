use hypixel_api::headers::header_u32_or_default;
use hypixel_api::headers::header_u64_or_default;
use hypixel_api::headers::parse_u64_digits;
use hypixel_api::headers::DEFAULT_REMAINING;
use hypixel_api::headers::DEFAULT_RESET_SECS;

#[test]
fn parses_plain_decimals() {
    assert_eq!(parse_u64_digits(b"0".as_slice()), Some(0));
    assert_eq!(parse_u64_digits(b"59".as_slice()), Some(59));
    assert_eq!(parse_u64_digits(b"007".as_slice()), Some(7));
    assert_eq!(
        parse_u64_digits(b"18446744073709551615".as_slice()),
        Some(u64::MAX)
    );
}

#[test]
fn rejects_anything_but_digits() {
    assert_eq!(parse_u64_digits(b"".as_slice()), None);
    assert_eq!(parse_u64_digits(b"1a".as_slice()), None);
    assert_eq!(parse_u64_digits(b"-3".as_slice()), None);
    assert_eq!(parse_u64_digits(b"+3".as_slice()), None);
    assert_eq!(parse_u64_digits(b" 3".as_slice()), None);
    assert_eq!(parse_u64_digits(b"3 ".as_slice()), None);
}

#[test]
fn rejects_values_that_do_not_fit() {
    assert_eq!(parse_u64_digits(b"18446744073709551616".as_slice()), None);
    assert_eq!(
        parse_u64_digits(b"99999999999999999999999999".as_slice()),
        None
    );
}

#[test]
fn headers_fall_back_to_the_documented_defaults() {
    assert_eq!(header_u64_or_default(None, DEFAULT_RESET_SECS), 10);
    assert_eq!(
        header_u64_or_default(Some(b"oops".as_slice()), DEFAULT_RESET_SECS),
        10
    );
    assert_eq!(header_u64_or_default(Some(b"25".as_slice()), 10), 25);

    assert_eq!(header_u32_or_default(None, DEFAULT_REMAINING), 110);
    assert_eq!(header_u32_or_default(Some(b"59".as_slice()), 110), 59);
    // A numeral too wide for the counter counts as malformed.
    assert_eq!(
        header_u32_or_default(Some(b"4294967296".as_slice()), DEFAULT_REMAINING),
        110
    );
    assert_eq!(
        header_u32_or_default(Some(b"4294967295".as_slice()), DEFAULT_REMAINING),
        u32::MAX
    );
}
