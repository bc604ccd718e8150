use predict_agent::json::{Json, JsonNumber};
use predict_agent::worker::{
    calculate_backoff, choose_market, extract_short_error, fill_info, final_tickets, first_actionable,
    first_open_market, is_auth_failure, read_persona, read_timeslot, submission_outcome, submit_failure,
    timeslot_gate, IterationResult, LoopState,
};
use predict_agent::worker::{backoff_fits_check, on_client_failure, on_refresh_failure, on_status_failure, StatusStep};
use predict_agent::worker::{fallback_market, markets_fetch_failure, without_target};

fn conv(v: serde_json::Value) -> Json {
    match v {
        serde_json::Value::Null => Json::Null,
        serde_json::Value::Bool(b) => Json::Bool(b),
        serde_json::Value::Number(n) => Json::Number(match (n.as_u64(), n.as_i64()) {
            (Some(u), _) => JsonNumber::PosInt(u),
            (None, Some(i)) => JsonNumber::NegInt(i),
            _ => JsonNumber::Float(n.to_string()),
        }),
        serde_json::Value::String(s) => Json::Str(s),
        serde_json::Value::Array(a) => Json::Array(a.into_iter().map(conv).collect()),
        serde_json::Value::Object(m) => Json::Object(m.into_iter().map(|(k, x)| (k, conv(x))).collect()),
    }
}

fn j(text: &str) -> Json {
    conv(serde_json::from_str(text).unwrap())
}

#[test]
fn backoff_doubles_then_caps() {
    assert_eq!(calculate_backoff(120, 0, None), 120);
    assert_eq!(calculate_backoff(120, 1, None), 240);
    assert_eq!(calculate_backoff(120, 2, None), 480);
    assert_eq!(calculate_backoff(120, 3, None), 600);
    assert_eq!(calculate_backoff(10, 9, None), 160);
    assert_eq!(calculate_backoff(120, 5, Some(42)), 42);
    for c in 0..10 {
        assert!(calculate_backoff(1000, c, None) <= 600);
        assert!(calculate_backoff(30, c, None) <= calculate_backoff(30, c + 1, None));
    }
}

#[test]
fn loop_counters() {
    let mut s = LoopState::new();
    assert!(s.begin_round(2));
    assert!(s.begin_round(2));
    assert!(!s.begin_round(2));
    let mut u = LoopState::new();
    for _ in 0..5 {
        assert!(u.begin_round(0));
    }
    let mut s = LoopState::new();
    let err = IterationResult::Error { reason: "x".to_string() };
    assert_eq!(s.finish_round(60, &err), 120);
    assert_eq!(s.finish_round(60, &err), 240);
    assert_eq!(s.consecutive_errors, 2);
    let none = IterationResult::NoMarkets { wait_seconds: 300 };
    assert_eq!(s.finish_round(60, &none), 300);
    assert_eq!(s.consecutive_empty, 1);
    let rl = IterationResult::RateLimited { wait_seconds: 77 };
    assert_eq!(s.finish_round(60, &rl), 77);
    let ok = IterationResult::Skipped { reason: "meh".to_string() };
    assert_eq!(s.finish_round(60, &ok), 60);
    assert_eq!(s.consecutive_errors, 0);
    assert_eq!(s.consecutive_empty, 0);
    for _ in 0..10 {
        assert!(s.finish_round(500, &IterationResult::LlmFailed { reason: "x".to_string() }) <= 600);
    }
}

#[test]
fn fill_summaries() {
    assert_eq!(fill_info("filled", 300, 300), "FILLED 300/300");
    assert_eq!(fill_info("partial", 100, 300), "PARTIAL 100/300");
    assert_eq!(fill_info("open", 0, 300), "PENDING 0/300 (waiting for counterparty)");
}

#[test]
fn auth_failures() {
    assert!(is_auth_failure("HTTP 401: AUTH_FAILED"));
    assert!(is_auth_failure("token expired"));
    assert!(is_auth_failure("invalid token"));
    assert!(!is_auth_failure("HTTP 500"));
}

#[test]
fn timeslot_defaults_and_gate() {
    let t = read_timeslot(&j("{}"));
    assert_eq!(t.submissions_remaining, 3);
    assert_eq!(t.slot_resets_in, 300);
    assert_eq!(t.slot_limit, 3);
    let t = read_timeslot(&j(r#"{"data":{"timeslot":{"submissions_remaining":0,"slot_resets_in_seconds":4}}}"#));
    assert_eq!(timeslot_gate(&t), Some(IterationResult::RateLimited { wait_seconds: 10 }));
    let t = read_timeslot(&j(r#"{"data":{"timeslot":{"submissions_remaining":0,"slot_resets_in_seconds":400}}}"#));
    assert_eq!(timeslot_gate(&t), Some(IterationResult::RateLimited { wait_seconds: 400 }));
    let t = read_timeslot(&j(r#"{"data":{"timeslot":{"submissions_remaining":2}}}"#));
    assert_eq!(timeslot_gate(&t), None);
    assert_eq!(read_persona(&j(r#"{"data":{"persona":"degen"}}"#)), "degen");
    assert_eq!(read_persona(&j("{}")), "none");
}

#[test]
fn choosing_markets() {
    let recs = vec![
        j(r#"{"market_id":"a","action":"skip","seconds_to_close":900}"#),
        j(r#"{"market_id":"b","seconds_to_close":100}"#),
        j(r#"{"market_id":"c","action":"buy","seconds_to_close":500}"#),
    ];
    assert_eq!(first_actionable(&recs), Some(2));
    assert_eq!(first_actionable(&recs[..2]), None);
    assert_eq!(choose_market(Some("a"), &recs, "c"), "a");
    assert_eq!(choose_market(Some("zzz"), &recs, "c"), "c");
    assert_eq!(choose_market(None, &recs, "c"), "c");
    let by_id = vec![j(r#"{"id":"q"}"#)];
    assert_eq!(choose_market(Some("q"), &by_id, "c"), "q");
}

#[test]
fn fallback_market_by_close_time() {
    let now = 1767225600; // 2026-01-01T00:00:00Z
    let ms = vec![
        j(r#"{"id":"gone","close_at":"2026-01-01T00:01:00Z"}"#),
        j(r#"{"id":"bad","close_at":"soon"}"#),
        j(r#"{"id":"ok","close_at":"2026-01-01T00:05:00Z"}"#),
    ];
    assert_eq!(first_open_market(&ms, now, 0), Some(2));
    assert_eq!(first_open_market(&ms[..2], now, 0), None);
}

#[test]
fn ticket_counts() {
    assert_eq!(final_tickets(Some(50), 5000), 100);
    assert_eq!(final_tickets(Some(250), 5000), 250);
    assert_eq!(final_tickets(None, 30), 100);
    assert_eq!(final_tickets(None, 1000), 1000);
}

#[test]
fn submission_failures() {
    assert_eq!(submit_failure("HTTP 429 Too Many Requests"), IterationResult::RateLimited { wait_seconds: 300 });
    assert_eq!(submit_failure("INSUFFICIENT_BALANCE"), IterationResult::NoMarkets { wait_seconds: 600 });
    assert_eq!(
        submit_failure("HTTP 400: {\"error\":{\"message\":\"bad reasoning\"}}"),
        IterationResult::Error { reason: "submit failed: bad reasoning".to_string() }
    );
    let long = "x".repeat(300);
    assert_eq!(extract_short_error(&long), "x".repeat(200));
    assert_eq!(extract_short_error("plain"), "plain");
}

#[test]
fn accepted_submission() {
    let r = submission_outcome(
        &j(r#"{"data":{"order_status":"partial","tickets_filled":120}}"#),
        "m".to_string(),
        "up".to_string(),
        300,
    );
    assert_eq!(
        r,
        IterationResult::Submitted {
            market: "m".to_string(),
            direction: "up".to_string(),
            tickets: 300,
            tickets_filled: 120,
            order_status: "partial".to_string(),
        }
    );
    let r = submission_outcome(&j("{}"), "m".to_string(), "down".to_string(), 100);
    assert!(matches!(r, IterationResult::Submitted { tickets_filled: 0, ref order_status, .. } if order_status == "open"));
}

#[test]
fn token_refresh_protocol() {
    // An auth failure on the first fetch asks for a refresh.
    for e in ["API error 401: AUTH_FAILED", "token expired", "invalid token supplied"] {
        assert_eq!(on_status_failure(false, e), StatusStep::RefreshToken);
    }
    // Any other failure ends the round without a refresh.
    assert_eq!(
        on_status_failure(false, "connection refused"),
        StatusStep::Stop(IterationResult::Error { reason: "status fetch failed: connection refused".to_string() })
    );
    // After the refresh, every failure ends the round: at most one refresh.
    assert_eq!(
        on_status_failure(true, "API error 401: AUTH_FAILED"),
        StatusStep::Stop(IterationResult::Error {
            reason: "status fetch failed after refresh: API error 401: AUTH_FAILED".to_string()
        })
    );
    assert_eq!(
        on_refresh_failure("token expired", "awp-wallet not found"),
        IterationResult::Error {
            reason: "auth failed and token refresh failed: token expired / awp-wallet not found".to_string()
        }
    );
    assert_eq!(
        on_client_failure(false, "bad url"),
        IterationResult::Error { reason: "API client init failed: bad url".to_string() }
    );
    assert_eq!(
        on_client_failure(true, "bad url"),
        IterationResult::Error { reason: "client reinit failed: bad url".to_string() }
    );
}

#[test]
fn backoff_overflow_is_detected_before_the_round_ends() {
    let err = IterationResult::Error { reason: "x".to_string() };
    assert!(backoff_fits_check(u64::MAX, &IterationResult::Skipped { reason: "s".to_string() }, 0));
    assert!(backoff_fits_check(u64::MAX / 2, &err, 0));
    assert!(!backoff_fits_check(u64::MAX / 2 + 1, &err, 0));
    assert!(backoff_fits_check(u64::MAX / 16, &err, 3));
    assert!(!backoff_fits_check(u64::MAX / 16 + 1, &err, 3));
    assert!(backoff_fits_check(60, &err, 10));
}

#[test]
fn fallback_and_missing_market_wait_five_minutes() {
    assert_eq!(fallback_market(&[], 1_700_000_000, 0), Err(IterationResult::NoMarkets { wait_seconds: 300 }));
    // 2023-11-14T22:13:20Z is 1_700_000_000.
    let soon = j(r#"{"id":"a","close_at":"2023-11-14T22:14:00Z"}"#);
    let later = j(r#"{"id":"b","close_at":"2023-11-14T22:30:00Z"}"#);
    assert_eq!(fallback_market(&[j(r#"{"id":"a","close_at":"2023-11-14T22:14:00Z"}"#)], 1_700_000_000, 0),
        Err(IterationResult::NoMarkets { wait_seconds: 300 }));
    assert_eq!(fallback_market(&[soon, later], 1_700_000_000, 0), Ok(1));
    assert_eq!(without_target(""), Some(IterationResult::NoMarkets { wait_seconds: 300 }));
    assert_eq!(without_target("btc-15m"), None);
    assert_eq!(
        markets_fetch_failure("timeout"),
        IterationResult::Error { reason: "markets fetch failed: timeout".to_string() }
    );
}
