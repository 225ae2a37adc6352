use axum_ratelimit::{
    Admission, Bucket, InvalidPolicy, RatelimitHandler, RatelimitProvider, ResponseTemplate,
    TooManyRequests,
};

const SECOND: u64 = 1_000_000_000;
const WALL: u64 = 1_700_000_000 * SECOND;

fn limiter(rate: u32, per: u64) -> RatelimitProvider<String> {
    match RatelimitProvider::new(rate, per) {
        Ok(provider) => provider,
        Err(_) => panic!("a positive rate and window make a limiter"),
    }
}

fn ask(provider: &mut RatelimitProvider<String>, key: &str, at: u64) -> Admission {
    provider.handle_request(
        &mut TooManyRequests,
        &(),
        key.to_string(),
        at * SECOND,
        WALL + at * SECOND,
    )
}

fn header(response: &ResponseTemplate, name: &str) -> String {
    response.headers.get(name).unwrap().to_str().unwrap().to_string()
}

/// Lets every request pass and counts how often it was asked.
struct Lenient {
    asked: u32,
}

impl RatelimitHandler<&str> for Lenient {
    fn handle_ratelimit(
        &mut self,
        _request: &&str,
        _bucket: &mut Bucket,
        _now: u64,
    ) -> Result<(), ResponseTemplate> {
        self.asked += 1;
        Ok(())
    }
}

/// Doubles what is left of the cooldown with every request it rejects.
struct Penalty;

impl RatelimitHandler<()> for Penalty {
    fn handle_ratelimit(
        &mut self,
        _request: &(),
        bucket: &mut Bucket,
        now: u64,
    ) -> Result<(), ResponseTemplate> {
        bucket.1 = now + 2 * bucket.retry_after(now);
        bucket.0 = 0;
        let mut response = ResponseTemplate::too_many_requests();
        response.status = 503;
        response.body = "slow down".to_string();
        Err(response)
    }
}

#[test]
fn a_zero_rate_is_refused() {
    assert!(matches!(
        RatelimitProvider::<u64>::new(0, SECOND),
        Err(InvalidPolicy::ZeroRate)
    ));
    assert!(matches!(
        RatelimitProvider::<u64>::new(0, 0),
        Err(InvalidPolicy::ZeroRate)
    ));
}

#[test]
fn a_zero_window_is_refused() {
    assert!(matches!(
        RatelimitProvider::<u64>::new(1, 0),
        Err(InvalidPolicy::ZeroPeriod)
    ));
}

#[test]
fn a_new_limiter_keeps_its_settings_and_no_bucket() {
    let provider = limiter(3, 10 * SECOND);
    assert_eq!(provider.rate(), 3);
    assert_eq!(provider.per(), 10 * SECOND);
    assert_eq!(provider.bucket(&"a".to_string()), None);
    let smallest: RatelimitProvider<u64> = RatelimitProvider::new(1, 1).ok().unwrap();
    assert_eq!(smallest.rate(), 1);
    assert_eq!(smallest.per(), 1);
}

#[test]
fn rate_two_per_ten_seconds() {
    let mut provider = limiter(2, 10 * SECOND);
    let key = "a".to_string();

    let first = ask(&mut provider, "a", 0);
    assert!(first.verdict.is_ok());
    assert_eq!(first.bucket, Bucket(1, 0));

    let second = ask(&mut provider, "a", 1);
    assert!(second.verdict.is_ok());
    assert_eq!(second.bucket, Bucket(2, 11 * SECOND));
    assert_eq!(provider.bucket(&key), Some(Bucket(2, 11 * SECOND)));

    let third = ask(&mut provider, "a", 2);
    assert!(third.verdict.is_err());
    assert_eq!(third.bucket, Bucket(2, 11 * SECOND));

    let fourth = ask(&mut provider, "a", 3);
    assert!(fourth.verdict.is_err());
    assert_eq!(provider.bucket(&key), Some(Bucket(2, 11 * SECOND)));

    let fifth = ask(&mut provider, "a", 13);
    assert!(fifth.verdict.is_ok());
    assert_eq!(fifth.bucket.remaining(), 1);
    assert_eq!(provider.bucket(&key), Some(Bucket(1, 11 * SECOND)));
}

#[test]
fn rate_three_spent_at_the_third_second() {
    let mut provider = limiter(3, 10 * SECOND);
    assert!(ask(&mut provider, "a", 0).verdict.is_ok());
    assert!(ask(&mut provider, "a", 1).verdict.is_ok());
    let third = ask(&mut provider, "a", 2);
    assert!(third.verdict.is_ok());
    assert_eq!(third.bucket, Bucket(3, 12 * SECOND));
    assert!(ask(&mut provider, "a", 3).verdict.is_err());
    let later = ask(&mut provider, "a", 13);
    assert!(later.verdict.is_ok());
    assert_eq!(later.bucket, Bucket(2, 12 * SECOND));
}

#[test]
fn the_first_requests_of_a_scope_all_proceed() {
    let rate = 7;
    let mut provider = limiter(rate, 60 * SECOND);
    for i in 0..rate {
        let made = ask(&mut provider, "scope", 5);
        assert!(made.verdict.is_ok());
        assert!(made.annotated.is_ok());
        if i + 1 < rate {
            assert_eq!(made.bucket, Bucket(rate - i - 1, 5 * SECOND));
        } else {
            assert_eq!(made.bucket, Bucket(rate, 65 * SECOND));
        }
    }
    assert!(ask(&mut provider, "scope", 5).verdict.is_err());
}

#[test]
fn the_request_after_the_allowance_goes_to_the_handler() {
    let mut provider: RatelimitProvider<u32> = RatelimitProvider::new(2, 10).ok().unwrap();
    let mut handler = Lenient { asked: 0 };
    assert!(provider.handle_request(&mut handler, &"GET /", 1, 0, 0).verdict.is_ok());
    assert!(provider.handle_request(&mut handler, &"GET /", 1, 1, 0).verdict.is_ok());
    assert_eq!(handler.asked, 0);
    assert_eq!(provider.bucket(&1), Some(Bucket(2, 11)));

    let third = provider.handle_request(&mut handler, &"GET /", 1, 2, 0);
    assert!(third.verdict.is_ok());
    assert!(third.annotated.is_ok());
    assert_eq!(handler.asked, 1);
    assert_eq!(third.bucket, Bucket(2, 11));
    assert_eq!(provider.bucket(&1), Some(Bucket(2, 11)));

    assert!(provider.handle_request(&mut handler, &"GET /", 1, 10, 0).verdict.is_ok());
    assert_eq!(handler.asked, 2);
    assert_eq!(provider.bucket(&1), Some(Bucket(2, 11)));
}

#[test]
fn the_cooldown_lapses_at_the_reset() {
    let mut provider: RatelimitProvider<u32> = RatelimitProvider::new(2, 10).ok().unwrap();
    let mut handler = Lenient { asked: 0 };
    provider.handle_request(&mut handler, &"GET /", 1, 0, 0);
    provider.handle_request(&mut handler, &"GET /", 1, 1, 0);
    let at_reset = provider.handle_request(&mut handler, &"GET /", 1, 11, 0);
    assert_eq!(handler.asked, 0);
    assert!(at_reset.verdict.is_ok());
    assert_eq!(at_reset.bucket, Bucket(1, 11));
    let spent = provider.handle_request(&mut handler, &"GET /", 1, 12, 0);
    assert_eq!(spent.bucket, Bucket(2, 22));
    assert_eq!(handler.asked, 0);
}

#[test]
fn remaining_is_full_right_after_the_allowance_is_spent() {
    let mut provider = limiter(4, 10 * SECOND);
    for _ in 0..3 {
        let made = ask(&mut provider, "a", 0);
        assert!(made.bucket.remaining() >= 1);
        assert!(made.bucket.remaining() < 4);
    }
    let last = ask(&mut provider, "a", 0);
    assert_eq!(last.bucket.remaining(), 4);
    assert_ne!(last.bucket.remaining(), 0);
    assert_eq!(provider.bucket(&"a".to_string()).unwrap().remaining(), 4);
}

#[test]
fn scopes_do_not_share_a_bucket() {
    let mut provider = limiter(2, 10 * SECOND);
    ask(&mut provider, "a", 0);
    ask(&mut provider, "a", 0);
    assert!(ask(&mut provider, "a", 1).verdict.is_err());
    let other = ask(&mut provider, "b", 1);
    assert!(other.verdict.is_ok());
    assert_eq!(other.bucket, Bucket(1, SECOND));
    assert_eq!(provider.bucket(&"a".to_string()), Some(Bucket(2, 10 * SECOND)));
    assert_eq!(provider.bucket(&"b".to_string()), Some(Bucket(1, SECOND)));
    assert_eq!(provider.bucket(&"c".to_string()), None);
}

#[test]
fn get_or_create_makes_a_bucket_once() {
    let mut provider = limiter(3, 10 * SECOND);
    assert_eq!(provider.get_or_create("a".to_string(), 5), Bucket(3, 5));
    assert_eq!(provider.get_or_create("a".to_string(), 9), Bucket(3, 5));
    assert_eq!(provider.bucket(&"a".to_string()), Some(Bucket(3, 5)));
    ask(&mut provider, "a", 1);
    assert_eq!(provider.get_or_create("a".to_string(), 2 * SECOND), Bucket(2, 5));
}

#[test]
fn the_default_handler_rejects_with_too_many_requests() {
    let mut bucket = Bucket(2, 12 * SECOND);
    let verdict = RatelimitHandler::<()>::handle_ratelimit(
        &mut TooManyRequests,
        &(),
        &mut bucket,
        3 * SECOND,
    );
    let response = verdict.unwrap_err();
    assert_eq!(response.status, 429);
    assert_eq!(response.body, "Too Many Requests");
    assert!(response.headers.is_empty());
    assert_eq!(bucket, Bucket(2, 12 * SECOND));
}

#[test]
fn the_plain_answer() {
    let response = ResponseTemplate::too_many_requests();
    assert_eq!(response.status, 429);
    assert_eq!(response.headers.len(), 0);
    assert_eq!(response.body, "Too Many Requests");
}

#[test]
fn a_rejection_carries_the_limited_headers() {
    let mut provider = limiter(2, 10 * SECOND);
    ask(&mut provider, "a", 0);
    ask(&mut provider, "a", 2);
    let rejected = ask(&mut provider, "a", 3);
    assert_eq!(rejected.annotated, Ok(()));
    assert_eq!(rejected.bucket, Bucket(2, 12 * SECOND));
    let response = rejected.verdict.unwrap_err();
    assert_eq!(response.status, 429);
    assert_eq!(response.body, "Too Many Requests");
    assert_eq!(response.headers.len(), 3);
    assert_eq!(header(&response, "X-Ratelimit-Remaining"), "2");
    assert_eq!(header(&response, "X-Ratelimit-Reset"), "1700000012");
    assert_eq!(header(&response, "Retry-After"), "9");
}

#[test]
fn the_default_info_headers_of_a_handler() {
    let mut headers = axum::http::HeaderMap::new();
    let written = RatelimitHandler::<()>::append_ratelimit_info_headers(
        &TooManyRequests,
        30,
        &mut headers,
    );
    assert_eq!(written, Ok(()));
    assert_eq!(headers.get("X-Ratelimit-Limit").unwrap(), "30");
    assert_eq!(headers.len(), 1);
}

#[test]
fn the_default_limited_headers_of_a_handler() {
    let mut headers = axum::http::HeaderMap::new();
    let written = RatelimitHandler::<()>::append_ratelimit_limited_headers(
        &TooManyRequests,
        &Bucket(8, 4 * SECOND),
        SECOND,
        WALL,
        &mut headers,
    );
    assert_eq!(written, Ok(()));
    assert_eq!(headers.get("x-ratelimit-remaining").unwrap(), "8");
    assert_eq!(headers.get("x-ratelimit-reset").unwrap(), "1700000003");
    assert_eq!(headers.get("retry-after").unwrap(), "3");
}

#[test]
fn the_handler_may_change_the_bucket() {
    let mut provider: RatelimitProvider<u8> = RatelimitProvider::new(1, 10).ok().unwrap();
    assert!(provider.handle_request(&mut Penalty, &(), 9, 0, 0).verdict.is_ok());
    assert_eq!(provider.bucket(&9), Some(Bucket(1, 10)));

    let rejected = provider.handle_request(&mut Penalty, &(), 9, 4, 0);
    assert_eq!(rejected.bucket, Bucket(0, 16));
    assert_eq!(provider.bucket(&9), Some(Bucket(0, 16)));
    let response = rejected.verdict.unwrap_err();
    assert_eq!(response.status, 503);
    assert_eq!(response.body, "slow down");
    assert_eq!(response.headers.get("x-ratelimit-remaining").unwrap(), "0");
    assert_eq!(response.headers.get("retry-after").unwrap(), "0.000000012");

    let counted = provider.handle_request(&mut Penalty, &(), 9, 16, 0);
    assert!(counted.verdict.is_ok());
    assert_eq!(counted.bucket, Bucket(1, 26));
}

#[test]
fn concluding_a_decision() {
    let bucket = Bucket(3, 20 * SECOND);
    let passed = Admission::conclude::<(), TooManyRequests>(
        &TooManyRequests,
        Ok(()),
        bucket,
        10 * SECOND,
        WALL,
    );
    assert!(passed.verdict.is_ok());
    assert!(passed.annotated.is_ok());
    assert_eq!(passed.bucket, bucket);

    let mut given = ResponseTemplate::too_many_requests();
    given.status = 418;
    given.body = "no".to_string();
    given
        .headers
        .insert("x-custom", axum::http::HeaderValue::from_static("kept"));
    let rejected = Admission::conclude::<(), TooManyRequests>(
        &TooManyRequests,
        Err(given),
        bucket,
        10 * SECOND,
        WALL,
    );
    assert_eq!(rejected.bucket, bucket);
    assert_eq!(rejected.annotated, Ok(()));
    let sent = rejected.verdict.unwrap_err();
    assert_eq!(sent.status, 418);
    assert_eq!(sent.body, "no");
    assert_eq!(header(&sent, "x-custom"), "kept");
    assert_eq!(header(&sent, "x-ratelimit-remaining"), "3");
    assert_eq!(header(&sent, "retry-after"), "10");
    assert_eq!(sent.headers.len(), 4);
}

#[test]
fn many_requests_of_a_new_scope_share_one_bucket() {
    let mut provider = limiter(100, 60 * SECOND);
    let mut proceeded = 0;
    for _ in 0..80 {
        if ask(&mut provider, "new", 0).verdict.is_ok() {
            proceeded += 1;
        }
    }
    assert_eq!(proceeded, 80);
    assert_eq!(provider.bucket(&"new".to_string()), Some(Bucket(20, 0)));
}
