use galileo::duration::{parse_rate_limit, span_nanos, DurationError};
use galileo::handler::{receive, Incoming, Reaction};
use galileo::limiter::{Decision, RateLimitEntry, RateLimiter};
use galileo::request::{Origin, ReplyTarget};

const SECOND: u128 = 1_000_000_000;
const HOUR: u128 = 3600 * SECOND;

#[test]
fn four_requests_inside_the_hour() {
    let mut limiter = RateLimiter::new(HOUR, 2);
    assert_eq!(limiter.check(7, 0), Decision::Allow);
    assert_eq!(limiter.check(7, 10 * SECOND), Decision::Deny { notify: true });
    assert_eq!(limiter.check(7, 20 * SECOND), Decision::Deny { notify: true });
    assert_eq!(limiter.check(7, 30 * SECOND), Decision::Deny { notify: false });
    assert_eq!(limiter.check(7, HOUR - 1), Decision::Deny { notify: false });
    assert_eq!(
        limiter.entry(7),
        Some(RateLimitEntry { window_start: 0, requests: 5, notices: 2 })
    );
}

#[test]
fn first_request_opens_a_window() {
    let mut limiter = RateLimiter::new(HOUR, 5);
    assert_eq!(limiter.entry(1), None);
    assert_eq!(limiter.check(1, 12345), Decision::Allow);
    assert_eq!(
        limiter.entry(1),
        Some(RateLimitEntry { window_start: 12345, requests: 1, notices: 0 })
    );
}

#[test]
fn window_expiry_reopens_admission() {
    let mut limiter = RateLimiter::new(HOUR, 1);
    assert_eq!(limiter.check(1, 100), Decision::Allow);
    assert_eq!(limiter.check(1, 100 + HOUR - 1), Decision::Deny { notify: true });
    assert_eq!(limiter.check(1, 100 + HOUR), Decision::Allow);
    assert_eq!(
        limiter.entry(1),
        Some(RateLimitEntry { window_start: 100 + HOUR, requests: 1, notices: 0 })
    );
    assert_eq!(limiter.check(1, 100 + HOUR + 1), Decision::Deny { notify: true });
    assert_eq!(limiter.check(1, 100 + HOUR + 2), Decision::Deny { notify: false });
}

#[test]
fn users_do_not_share_a_window() {
    let mut limiter = RateLimiter::new(HOUR, 1);
    assert_eq!(limiter.check(1, 0), Decision::Allow);
    assert_eq!(limiter.check(2, 1), Decision::Allow);
    assert_eq!(limiter.check(1, 2), Decision::Deny { notify: true });
    assert_eq!(limiter.check(2, 3), Decision::Deny { notify: true });
    assert_eq!(limiter.check(3, 4), Decision::Allow);
}

#[test]
fn no_two_allows_within_one_window() {
    let mut limiter = RateLimiter::new(50, 3);
    let mut last_allow: Option<u128> = None;
    for now in 0..400u128 {
        if now % 3 == 0 {
            limiter.check(99, now);
            continue;
        }
        if limiter.check(1, now) == Decision::Allow {
            if let Some(before) = last_allow {
                assert!(now >= before + 50);
            }
            last_allow = Some(now);
        }
    }
    assert_eq!(last_allow, Some(358));
}

#[test]
fn reply_limit_of_zero_never_notifies() {
    let mut limiter = RateLimiter::new(HOUR, 0);
    assert_eq!(limiter.check(1, 0), Decision::Allow);
    assert_eq!(limiter.check(1, 1), Decision::Deny { notify: false });
}

#[test]
fn window_of_zero_allows_everything() {
    let mut limiter = RateLimiter::new(0, 5);
    assert_eq!(limiter.check(1, 5), Decision::Allow);
    assert_eq!(limiter.check(1, 5), Decision::Allow);
    assert_eq!(limiter.check(1, 6), Decision::Allow);
}

#[test]
fn clock_running_backwards_stays_in_the_window() {
    let mut limiter = RateLimiter::new(10, 5);
    assert_eq!(limiter.check(1, 100), Decision::Allow);
    assert_eq!(limiter.check(1, 50), Decision::Deny { notify: true });
}

#[test]
fn window_at_the_end_of_time_does_not_overflow() {
    let mut limiter = RateLimiter::new(u128::MAX, 1);
    assert_eq!(limiter.check(1, u128::MAX), Decision::Allow);
    assert_eq!(limiter.check(1, u128::MAX), Decision::Deny { notify: true });
}

fn incoming(author_id: u64, message_id: u64, addresses: &[&str]) -> Incoming {
    Incoming {
        author_id,
        channel_id: 500,
        message_id,
        addresses: addresses.iter().map(|s| s.to_string()).collect(),
    }
}

#[test]
fn allowed_message_becomes_a_request() {
    let mut limiter = RateLimiter::new(HOUR, 2);
    match receive(&mut limiter, incoming(7, 900, &["addrA", "addrB"]), 0) {
        Reaction::Enqueue(request) => {
            assert_eq!(request.requester_id, 7);
            assert_eq!(request.reply_target, ReplyTarget { channel_id: 500, message_id: 900 });
            assert_eq!(request.addresses, vec!["addrA".to_string(), "addrB".to_string()]);
            assert_eq!(request.origin, Origin::Live);
        }
        other => panic!("unexpected reaction {:?}", other),
    }
}

#[test]
fn one_request_two_notices_then_silence() {
    let mut limiter = RateLimiter::new(HOUR, 2);
    assert!(matches!(receive(&mut limiter, incoming(7, 1, &["addrA"]), 0), Reaction::Enqueue(_)));
    assert!(matches!(receive(&mut limiter, incoming(7, 2, &["addrA"]), 60 * SECOND), Reaction::Notify));
    assert!(matches!(receive(&mut limiter, incoming(7, 3, &["addrA"]), 120 * SECOND), Reaction::Notify));
    assert!(matches!(receive(&mut limiter, incoming(7, 4, &["addrA"]), 180 * SECOND), Reaction::Ignore));
}

#[test]
fn message_without_entries_is_not_counted() {
    let mut limiter = RateLimiter::new(HOUR, 2);
    assert!(matches!(receive(&mut limiter, incoming(7, 1, &[]), 0), Reaction::Ignore));
    assert_eq!(limiter.entry(7), None);
    assert!(matches!(receive(&mut limiter, incoming(7, 2, &["addrA"]), 1), Reaction::Enqueue(_)));
}

#[test]
fn rate_limit_is_read_from_text() {
    assert_eq!(parse_rate_limit("1day").unwrap(), 86400 * SECOND);
    assert_eq!(parse_rate_limit("10m").unwrap(), 600 * SECOND);
    assert_eq!(parse_rate_limit("1h").unwrap(), HOUR);
    assert_eq!(parse_rate_limit("2h 37min").unwrap(), 9420 * SECOND);
    assert_eq!(parse_rate_limit("32ms").unwrap(), 32_000_000);
    assert_eq!(parse_rate_limit("0").unwrap(), 0);
}

#[test]
fn rate_limit_errors_are_told_apart() {
    assert!(matches!(parse_rate_limit(""), Err(DurationError::Empty)));
    assert!(matches!(parse_rate_limit("abc"), Err(DurationError::NumberExpected(0))));
    assert!(matches!(parse_rate_limit("1 day!"), Err(DurationError::InvalidCharacter(5))));
    match parse_rate_limit("10parsecs") {
        Err(DurationError::UnknownUnit { start, end, unit, value }) => {
            assert_eq!((start, end, unit.as_str(), value), (2, 9, "parsecs", 10));
        }
        other => panic!("unexpected outcome {:?}", other),
    }
    assert!(matches!(parse_rate_limit("1.5ns"), Err(DurationError::NumberOverflow)));
    assert!(matches!(parse_rate_limit("0.0000000001s"), Err(DurationError::NumberOverflow)));
}

#[test]
fn rate_limit_of_many_units_is_read() {
    assert_eq!(
        parse_rate_limit("1year 2months 3days 4hours 5min 6s").unwrap(),
        37_091_538 * SECOND
    );
    assert_eq!(parse_rate_limit("1.5h").unwrap(), 5400 * SECOND);
}

#[test]
fn rate_limit_with_too_many_digits_is_refused_unread() {
    assert!(matches!(
        parse_rate_limit("18446744073709551615s 1000ms"),
        Err(DurationError::TooManyDigits)
    ));
    assert!(matches!(
        parse_rate_limit("18446744073709551615s 1000000000ns"),
        Err(DurationError::TooManyDigits)
    ));
    assert!(matches!(
        parse_rate_limit("99999999999999999999999years"),
        Err(DurationError::TooManyDigits)
    ));
    assert!(matches!(parse_rate_limit("1s 2s 3s 4s 5s 6s 7s 8s 9s 1s 2s 3s"), Err(DurationError::TooManyDigits)));
    assert!(matches!(parse_rate_limit("000000000000"), Err(DurationError::TooManyDigits)));
}

#[test]
fn rate_limit_of_eleven_digits_is_read() {
    assert_eq!(parse_rate_limit("99999999999s").unwrap(), 99_999_999_999 * SECOND);
    assert_eq!(parse_rate_limit("1s 2s 3s 4s 5s 6s 7s 8s 9s 1s 2s").unwrap(), 48 * SECOND);
    assert_eq!(parse_rate_limit("86400000000ms").unwrap(), 86_400_000 * SECOND);
    assert_eq!(
        parse_rate_limit("99999999999years").unwrap(),
        99_999_999_999 * 31_557_600 * SECOND
    );
    assert!(matches!(parse_rate_limit("100000000000s"), Err(DurationError::TooManyDigits)));
}

#[test]
fn digits_are_counted_wherever_they_stand() {
    assert_eq!(galileo::duration::count_digits(""), 0);
    assert_eq!(galileo::duration::count_digits("day"), 0);
    assert_eq!(galileo::duration::count_digits("1day 20min"), 3);
    assert_eq!(galileo::duration::count_digits("0.05s µ9 ٣"), 4);
}

#[test]
fn seconds_and_nanoseconds_add_up() {
    assert_eq!(span_nanos(0, 0), 0);
    assert_eq!(span_nanos(1, 1), 1_000_000_001);
    assert_eq!(span_nanos(u64::MAX, 999_999_999), 18446744073709551615u128 * 1_000_000_000 + 999_999_999);
    assert_eq!(span_nanos(u64::MAX, u32::MAX), 18446744073709551615u128 * 1_000_000_000 + 4294967295);
}

#[test]
fn candidates_are_the_words_with_the_prefix() {
    let found = galileo::words::extract_candidates(
        "please send to penumbrav2t1abc and\tpenumbrav2t1def\nthanks penumbra",
        "penumbrav",
    );
    assert_eq!(found, vec!["penumbrav2t1abc".to_string(), "penumbrav2t1def".to_string()]);
}

#[test]
fn candidates_of_texts_without_words() {
    assert!(galileo::words::extract_candidates("", "p").is_empty());
    assert!(galileo::words::extract_candidates("  \n\t \r ", "p").is_empty());
    assert!(galileo::words::extract_candidates("hello world", "penumbra").is_empty());
}

#[test]
fn candidates_with_an_empty_prefix_are_all_words() {
    let found = galileo::words::extract_candidates("  one two\r\nthree ", "");
    assert_eq!(found, vec!["one".to_string(), "two".to_string(), "three".to_string()]);
}

#[test]
fn candidates_keep_characters_beyond_ascii() {
    let found = galileo::words::extract_candidates("é penumbraé→x pénumbra penumbra", "penumbra");
    assert_eq!(found, vec!["penumbraé→x".to_string(), "penumbra".to_string()]);
}

#[test]
fn candidate_must_begin_with_the_whole_prefix() {
    let found = galileo::words::extract_candidates("pen penumbr xpenumbrav penumbrav", "penumbrav");
    assert_eq!(found, vec!["penumbrav".to_string()]);
}
