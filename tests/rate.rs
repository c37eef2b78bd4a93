use data_ingester::headers::{parse_usize, HeaderField};
use data_ingester::rate::{get_usize_from_header, AdoRateLimiting, RateSnapshot};

fn header(name: &str, value: &str) -> HeaderField {
    HeaderField { name: name.to_string(), value: Some(value.to_string()) }
}

#[test]
fn remaining_without_limit() {
    let snapshot = RateSnapshot::from_headers(&vec![header("X-RateLimit-Remaining", "7")]);
    assert_eq!(snapshot.remaining, 7);
    assert_eq!(snapshot.limit, 0);
    assert_eq!(snapshot.window_seconds, 0);
    assert_eq!(snapshot.retry_after_seconds, 0);
    assert_eq!(snapshot.concurrency_limit, 0);
    assert_eq!(snapshot.concurrency_running, 0);
}

#[test]
fn every_snapshot_header_is_read() {
    let headers = vec![
        header("x-ratelimit-limit", "300"),
        header("X-RateLimit-Window-Sec", "3600"),
        header("X-RateLimit-Remaining", "299"),
        header("X-RateLimit-ToWait-Sec", "12"),
        header("X-Concurrency-Limit-Limit", "2"),
        header("X-CONCURRENCY-LIMIT-RUNNING", "1"),
    ];
    let s = RateSnapshot::from_headers(&headers);
    assert_eq!((s.limit, s.window_seconds, s.remaining), (300, 3600, 299));
    assert_eq!((s.retry_after_seconds, s.concurrency_limit, s.concurrency_running), (12, 2, 1));
}

#[test]
fn unparsable_headers_read_as_zero() {
    let headers = vec![
        header("X-RateLimit-Limit", "lots"),
        header("X-RateLimit-Remaining", "-1"),
        header("X-RateLimit-Window-Sec", "99999999999999999999999"),
        HeaderField { name: "X-Concurrency-Limit-Limit".to_string(), value: None },
    ];
    let s = RateSnapshot::from_headers(&headers);
    assert_eq!((s.limit, s.remaining, s.window_seconds, s.concurrency_limit), (0, 0, 0, 0));
}

#[test]
fn first_header_of_a_name_counts() {
    let headers = vec![header("X-RateLimit-Limit", "5"), header("X-RateLimit-Limit", "9")];
    assert_eq!(get_usize_from_header(&headers, "X-RateLimit-Limit"), 5);
}

#[test]
fn parse_usize_as_std() {
    for text in ["0", "7", "+7", "007", "18446744073709551615", "", "+", "-1", "1.5", " 1", "18446744073709551616", "x"] {
        assert_eq!(parse_usize(text), text.parse::<usize>().ok(), "{text}");
    }
}

#[test]
fn ado_limits_are_read() {
    let headers = vec![
        header("X-RateLimit-Resource", "Core"),
        header("X-RateLimit-Delay", "1"),
        header("X-RateLimit-Limit", "200"),
        header("X-RateLimit-Remaining", "150"),
        header("X-RateLimit-Reset", "1700000000"),
    ];
    let l = AdoRateLimiting::from_headers(&headers).ok().unwrap();
    assert_eq!(l.rate_limit_resource, "Core");
    assert_eq!((l.retry_after, l.rate_limit_delay, l.rate_limit_limit), (0, 1, 200));
    assert_eq!((l.rate_limit_remaining, l.rate_limit_reset), (150, 1700000000));
}

#[test]
fn ado_resource_defaults() {
    let l = AdoRateLimiting::from_headers(&vec![]).ok().unwrap();
    assert_eq!(l.rate_limit_resource, "SSPHP:Unknown Resource");
    assert_eq!(l.rate_limit_limit, 0);
}

#[test]
fn retry_after_is_not_ignored() {
    let err = AdoRateLimiting::from_headers(&vec![header("Retry-After", "30")]).err().unwrap();
    assert_eq!(err.retry_after, 30);
    assert!(AdoRateLimiting::from_headers(&vec![header("retry-after", "x")]).is_err());
}
