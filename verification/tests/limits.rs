use mansa::reddit::reddit::{response_timestamp, RateLimitHeaders, Reddit};
use mansa::utils::number::{digit_of, parse_u64};
use mansa::utils::text::{characters, contains_text, same_text};
use mansa::utils::time::{get_timestamp, millis_until};

fn headers(date: Option<&str>, reset: Option<&str>, remaining: Option<usize>) -> RateLimitHeaders {
    RateLimitHeaders {
        date: date.map(|text| text.to_string()),
        reset: reset.map(|text| text.to_string()),
        remaining,
    }
}

#[test]
fn limits_of_a_complete_response() {
    let limits = Reddit::parse_limits_from_header(&headers(
        Some("Sun, 31 Jul 2022 00:01:30 GMT"),
        Some("123"),
        Some(598),
    ));
    assert_eq!(limits, (1_659_225_690, 123, 598));
}

#[test]
fn limits_without_headers_are_the_defaults() {
    assert_eq!(Reddit::parse_limits_from_header(&headers(None, None, None)), (0, 400, 0));
}

#[test]
fn unreadable_date_counts_as_zero() {
    let limits = Reddit::parse_limits_from_header(&headers(Some("yesterday"), None, None));
    assert_eq!(limits.0, 0);
    let limits = Reddit::parse_limits_from_header(&headers(Some(""), None, None));
    assert_eq!(limits.0, 0);
    let limits =
        Reddit::parse_limits_from_header(&headers(Some("Mon, 31 Jul 2022 00:01:30 GMT"), None, None));
    assert_eq!(limits.0, 0);
}

#[test]
fn date_is_not_handed_back_as_it_came() {
    let limits = Reddit::parse_limits_from_header(&headers(
        Some("Thu, 01 Jan 1970 00:00:10 +0000"),
        None,
        None,
    ));
    assert_eq!(limits.0, 10);
    let limits = Reddit::parse_limits_from_header(&headers(
        Some("Thu, 01 Jan 1970 01:00:00 +0100"),
        None,
        None,
    ));
    assert_eq!(limits.0, 0);
    let limits = Reddit::parse_limits_from_header(&headers(
        Some("Wed, 18 Feb 2015 23:16:09 GMT"),
        None,
        None,
    ));
    assert_eq!(limits.0, 1_424_301_369);
}

#[test]
fn date_before_the_epoch_wraps_around() {
    let limits = Reddit::parse_limits_from_header(&headers(
        Some("Wed, 31 Dec 1969 23:59:59 GMT"),
        None,
        None,
    ));
    assert_eq!(limits.0, u64::MAX);
}

#[test]
fn response_timestamp_of_parsed_seconds() {
    assert_eq!(response_timestamp(None), 0);
    assert_eq!(response_timestamp(Some(0)), 0);
    assert_eq!(response_timestamp(Some(1_659_225_690)), 1_659_225_690);
    assert_eq!(response_timestamp(Some(i64::MAX)), i64::MAX as u64);
    assert_eq!(response_timestamp(Some(-1)), u64::MAX);
    assert_eq!(response_timestamp(Some(-2)), u64::MAX - 1);
    assert_eq!(response_timestamp(Some(i64::MIN)), 1u64 << 63);
    for seconds in [-5i64, -1000, 17, i64::MIN + 1] {
        assert_eq!(response_timestamp(Some(seconds)), seconds as u64);
    }
}

#[test]
fn unreadable_reset_counts_as_four_hundred() {
    for reset in ["", "abc", "12a", " 12", "12 ", "-1", "+", "1.5", "0x10", "१२"] {
        let limits = Reddit::parse_limits_from_header(&headers(None, Some(reset), None));
        assert_eq!(limits.1, 400, "reset {:?}", reset);
    }
}

#[test]
fn reset_is_read_as_a_number() {
    for (reset, expected) in [
        ("0", 0u64),
        ("7", 7),
        ("+7", 7),
        ("007", 7),
        ("400", 400),
        ("18446744073709551615", u64::MAX),
        ("+18446744073709551615", u64::MAX),
    ] {
        let limits = Reddit::parse_limits_from_header(&headers(None, Some(reset), None));
        assert_eq!(limits.1, expected, "reset {:?}", reset);
    }
}

#[test]
fn reset_beyond_sixty_four_bits_counts_as_four_hundred() {
    for reset in ["18446744073709551616", "99999999999999999999", "184467440737095516150"] {
        let limits = Reddit::parse_limits_from_header(&headers(None, Some(reset), None));
        assert_eq!(limits.1, 400);
    }
}

#[test]
fn remaining_is_taken_as_given() {
    assert_eq!(Reddit::parse_limits_from_header(&headers(None, None, Some(0))).2, 0);
    assert_eq!(Reddit::parse_limits_from_header(&headers(None, None, Some(599))).2, 599);
    assert_eq!(
        Reddit::parse_limits_from_header(&headers(None, None, Some(usize::MAX))).2,
        usize::MAX
    );
}

#[test]
fn parse_u64_agrees_with_the_standard_parser() {
    let samples = [
        "", "0", "1", "+1", "-1", "+", "-", "++1", "+-1", "1+", "00", "0009", "12345",
        "18446744073709551615", "18446744073709551616", "18446744073709551614",
        "28446744073709551615", "1e3", "1_000", " 1", "1 ", "٣", "１", "a", "9a", "\u{1F600}",
        "+0", "+00018446744073709551615", "99999999999999999999999999",
    ];
    for sample in samples {
        assert_eq!(parse_u64(sample), sample.parse::<u64>().ok(), "sample {:?}", sample);
    }
}

#[test]
fn digit_of_reads_decimal_digits_only() {
    for (index, digit) in "0123456789".chars().enumerate() {
        assert_eq!(digit_of(digit), Some(index as u64));
    }
    for other in ['a', ' ', '+', '-', '/', ':', '٣', '１'] {
        assert_eq!(digit_of(other), None);
    }
}

#[test]
fn contains_text_agrees_with_the_standard_search() {
    let texts = ["", "a", "ab", "abc", "aab", "./settings/Reddit", "xé世y", "general_settings.json"];
    let patterns = ["", "a", "b", "ab", "bc", "abc", "abcd", "Reddit", "é世", "世y", "json"];
    for text in texts {
        for pattern in patterns {
            assert_eq!(
                contains_text(text, pattern),
                text.contains(pattern),
                "text {:?} pattern {:?}",
                text,
                pattern
            );
        }
    }
}

#[test]
fn characters_and_same_text() {
    assert_eq!(characters("aé世"), vec!['a', 'é', '世']);
    assert_eq!(characters(""), Vec::<char>::new());
    assert!(same_text("abc", "abc"));
    assert!(!same_text("abc", "abd"));
    assert!(!same_text("abc", "ab"));
    assert!(same_text("", ""));
}

#[test]
fn millis_until_a_deadline() {
    assert_eq!(millis_until(60_000, 0), 60_000);
    assert_eq!(millis_until(60_000, 59_999), 1);
    assert_eq!(millis_until(60_000, 60_000), 0);
    assert_eq!(millis_until(60_000, 60_001), 0);
    assert_eq!(millis_until(u64::MAX, 0), u64::MAX);
    assert_eq!(millis_until(0, u64::MAX), 0);
}

#[test]
fn clock_shows_milliseconds_since_the_epoch() {
    let first = get_timestamp();
    let second = get_timestamp();
    assert!(first > 1_600_000_000_000);
    assert!(first < 100_000_000_000_000);
    assert!(second >= first);
}
