use soundcloud_dl::error::AppError;
use soundcloud_dl::soundcloud::gateway::{
    Attempt, Backoff, Verdict, INITIAL_RETRY_DELAY_MS, JITTER_MS, MAX_RETRIES, MAX_RETRY_DELAY_MS,
    TOO_MANY_REQUESTS,
};

/// Sends a request to a transport that answers with the given statuses, one
/// per attempt, and gives the waits and the outcome.
fn run(statuses: &[u16], jitters: &[u64]) -> (Vec<u64>, Result<u16, AppError>, u32) {
    let mut state = Backoff::new();
    let mut waits = Vec::new();
    let mut attempt = 0;
    loop {
        let status = statuses[attempt];
        match state.judge_with(Attempt::Response(status), jitters[attempt % jitters.len()]) {
            Verdict::Deliver => return (waits, Ok(status), state.retries_made()),
            Verdict::Retry(wait) => waits.push(wait),
            Verdict::Fail(e) => return (waits, Err(e), state.retries_made()),
        }
        attempt += 1;
    }
}

#[test]
fn constants_are_those_of_the_rule() {
    assert_eq!(MAX_RETRIES, 5);
    assert_eq!(INITIAL_RETRY_DELAY_MS, 30_000);
    assert_eq!(MAX_RETRY_DELAY_MS, 500_000);
    assert_eq!(JITTER_MS, 1000);
    assert_eq!(TOO_MANY_REQUESTS, 429);
}

#[test]
fn three_limits_then_success_is_three_retries() {
    let (waits, outcome, retries) = run(&[429, 429, 429, 200], &[0]);
    assert_eq!(outcome, Ok(200));
    assert_eq!(retries, 3);
    assert_eq!(waits, vec![30_000, 60_000, 120_000]);
}

#[test]
fn waits_never_shrink_and_stay_within_the_cap() {
    let (waits, outcome, retries) = run(&[429, 429, 429, 429, 429, 200], &[999, 0, 500, 1, 998]);
    assert_eq!(outcome, Ok(200));
    assert_eq!(retries, 5);
    assert_eq!(waits.len(), 5);
    for pair in waits.windows(2) {
        assert!(pair[0] <= pair[1]);
    }
    for wait in &waits {
        assert!(*wait <= MAX_RETRY_DELAY_MS);
    }
    assert_eq!(waits, vec![30_000, 60_999, 121_998, 244_496, 488_993]);
}

#[test]
fn six_limits_in_a_row_are_rate_limited() {
    let (waits, outcome, retries) = run(&[429, 429, 429, 429, 429, 429], &[0]);
    assert_eq!(outcome, Err(AppError::RateLimited));
    assert_eq!(retries, 5);
    assert_eq!(waits, vec![30_000, 60_000, 120_000, 240_000, 480_000]);
}

#[test]
fn the_wait_is_capped() {
    let mut state = Backoff::new();
    for _ in 0..5 {
        state.judge_with(Attempt::Response(429), 999);
    }
    assert_eq!(state.delay_ms(), 500_000);
    assert_eq!(state.retries_made(), 5);
}

#[test]
fn the_jitter_is_the_number_modulo_a_thousand() {
    let mut state = Backoff::new();
    assert_eq!(state.judge_with(Attempt::Response(429), 123_456), Verdict::Retry(30_000));
    assert_eq!(state.delay_ms(), 60_456);
    assert_eq!(state.judge_with(Attempt::Response(429), u64::MAX), Verdict::Retry(60_456));
    assert_eq!(state.delay_ms(), 120_912 + u64::MAX % 1000);
}

#[test]
fn a_drawn_jitter_stays_in_its_range() {
    for _ in 0..200 {
        let mut state = Backoff::new();
        assert_eq!(state.judge(Attempt::Response(429)), Verdict::Retry(30_000));
        assert!(state.delay_ms() >= 60_000);
        assert!(state.delay_ms() < 61_000);
        assert_eq!(state.retries_made(), 1);
    }
}

#[test]
fn other_answers_are_handed_on_unchanged() {
    for status in [200u16, 201, 204, 301, 400, 401, 403, 404, 428, 430, 500, 503] {
        let mut state = Backoff::new();
        assert_eq!(state.judge_with(Attempt::Response(status), 5), Verdict::Deliver);
        assert_eq!(state.retries_made(), 0);
        assert_eq!(state.delay_ms(), 30_000);
    }
}

#[test]
fn a_transport_failure_is_never_retried() {
    let mut state = Backoff::new();
    let verdict = state.judge_with(Attempt::Failure("connection reset".to_string()), 1);
    assert_eq!(verdict, Verdict::Fail(AppError::Network("connection reset".to_string())));
    assert_eq!(state.retries_made(), 0);

    let mut state = Backoff::new();
    state.judge(Attempt::Response(429));
    let verdict = state.judge(Attempt::Failure("dns".to_string()));
    assert_eq!(verdict, Verdict::Fail(AppError::Network("dns".to_string())));
    assert_eq!(state.retries_made(), 1);
}

#[test]
fn rate_limited_differs_from_a_network_failure() {
    let (_, outcome, _) = run(&[429; 6], &[0]);
    let e = outcome.unwrap_err();
    assert!(matches!(e, AppError::RateLimited));
    assert!(!matches!(e, AppError::Network(_)));
    assert_eq!(e.message(), "Rate limited by SoundCloud API");
}

#[test]
fn after_the_budget_a_success_is_still_handed_on() {
    let mut state = Backoff::new();
    for _ in 0..5 {
        assert!(matches!(state.judge_with(Attempt::Response(429), 0), Verdict::Retry(_)));
    }
    assert_eq!(state.judge_with(Attempt::Response(200), 0), Verdict::Deliver);
}
