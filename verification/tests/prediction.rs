use predict_agent::json::{Json, JsonNumber};
use predict_agent::prediction::{
    accepted_output, canonical_body, dry_run_output, extract_message, parse_server_error, rejected_output,
    sha256_hex, submission_body, validate_submission, LimitPrice, SubmitArgs,
};
use predict_agent::prediction::{error_message_from_json, server_error_from_json};

const REASON: &str = "BTC has printed three higher lows on the 1m chart. Momentum favors a push up into the close.";

fn args(prediction: &str, tickets: u32, reasoning: &str, lp: Option<(&str, bool)>) -> SubmitArgs {
    SubmitArgs {
        market: "btc-15m-1".to_string(),
        prediction: prediction.to_string(),
        tickets,
        reasoning: reasoning.to_string(),
        limit_price: lp.map(|(t, ok)| LimitPrice { text: t.to_string(), in_range: ok }),
        dry_run: false,
    }
}

#[test]
fn canonical_text() {
    assert_eq!(sha256_hex("abc"), "ba7816bf8f01cfea414140de5dae2223b00361a396177a9cb410ff61f20015ad");
    assert_eq!(
        canonical_body("m1", "up", None, 300, "abc"),
        "m1|up|none|300|ba7816bf8f01cfea414140de5dae2223b00361a396177a9cb410ff61f20015ad"
    );
    assert_eq!(
        canonical_body("m1", "down", Some("0.55"), 100, ""),
        "m1|down|0.55|100|e3b0c44298fc1c149afbf4c8996fb92427ae41e4649b934ca495991b7852b855"
    );
}

#[test]
fn body_members() {
    let b = submission_body("m1", "up", 300, "r", Some("0.6"));
    assert_eq!(b.get("tickets").and_then(|v| v.as_u64()), Some(300));
    assert!(matches!(b.get("limit_price"), Some(Json::Number(JsonNumber::Float(t))) if t == "0.6"));
    let b = submission_body("m1", "up", 300, "r", None);
    assert!(b.get("limit_price").is_none());
}

#[test]
fn validation_order() {
    assert!(validate_submission(&args("up", 300, REASON, None)).is_none());
    let e = validate_submission(&args("sideways", 10, "x", None)).unwrap();
    assert_eq!(e.error.as_ref().unwrap().code, "INVALID_DIRECTION");
    let e = validate_submission(&args("down", 0, "x", None)).unwrap();
    let err = e.error.as_ref().unwrap();
    assert_eq!(err.code, "INVALID_TICKETS");
    assert_eq!(err.suggestion, "Use --tickets N where N >= 1.");
    assert_eq!(e.user_message, "Tickets must be >= 1. You specified 0.");
    let debug = err.debug.as_ref().unwrap();
    assert_eq!(debug.get("provided_tickets").and_then(|v| v.as_u64()), Some(0));
    assert_eq!(debug.get("minimum_tickets").and_then(|v| v.as_u64()), Some(1));
    // Small orders are the caller's decision.
    assert!(validate_submission(&args("up", 1, REASON, None)).is_none());
    assert!(validate_submission(&args("up", 99, REASON, None)).is_none());
    let e = validate_submission(&args("down", 1, "x", Some(("1.5", false)))).unwrap();
    assert_eq!(e.user_message, "limit-price must be between 0.01 and 0.99, got 1.5");
    let e = validate_submission(&args("down", 100, "short", None)).unwrap();
    assert_eq!(e.user_message, "Reasoning too short: 5 characters (minimum 80).");
    assert_eq!(e._internal.next_action, "fix_command");
}

#[test]
fn dry_run_preview() {
    let a = args("up", 300, REASON, Some(("0.55", true)));
    let out = dry_run_output(&a, submission_body("btc-15m-1", "up", 300, REASON, Some("0.55")));
    assert_eq!(out.user_message, "[dry-run] Would submit UP prediction for market btc-15m-1 with 300 tickets.");
    let cmd = out._internal.next_command.as_deref().unwrap();
    assert!(cmd.starts_with("predict-agent submit --market btc-15m-1 --prediction up --tickets 300 --reasoning \""));
    assert!(cmd.ends_with("\" --limit-price 0.55"));
    assert_eq!(cmd.matches("Momentum").count(), 0);
}

#[test]
fn server_errors() {
    let structured = "HTTP 400 Bad Request: {\"error\":{\"code\":\"REASONING_DUPLICATE\",\"category\":\"validation\",\"retryable\":false,\"suggestion\":\"Rewrite\",\"message\":\"dup\"}}";
    let e = parse_server_error(structured);
    assert_eq!((e.code.as_str(), e.category.as_str(), e.retryable, e.suggestion.as_str()), ("REASONING_DUPLICATE", "validation", false, "Rewrite"));
    assert_eq!(extract_message(structured), "dup");
    assert_eq!(parse_server_error("HTTP 429").code, "RATE_LIMIT_EXCEEDED");
    assert!(parse_server_error("HTTP 429").retryable);
    assert_eq!(parse_server_error("MARKET_CLOSED").code, "MARKET_CLOSED");
    assert_eq!(parse_server_error("insufficient chips").code, "INSUFFICIENT_BALANCE");
    assert_eq!(parse_server_error("duplicate").code, "REASONING_DUPLICATE");
    assert_eq!(parse_server_error("503").code, "SERVICE_UNAVAILABLE");
    assert_eq!(parse_server_error("weird").code, "SUBMISSION_FAILED");
    assert_eq!(extract_message("{\"message\":\"top\"}"), "top");
    assert_eq!(extract_message("plain"), "plain");
}

#[test]
fn rejected_and_accepted_outputs() {
    let a = args("up", 300, REASON, None);
    let out = rejected_output(&a, "HTTP 503", "http://s");
    assert_eq!(out.user_message, "Submission failed: HTTP 503");
    assert_eq!(out._internal.next_action, "retry");
    assert_eq!(out._internal.wait_seconds, Some(30));
    let d = out.error.as_ref().unwrap().debug.as_ref().unwrap();
    assert!(d.get("limit_price").unwrap().is_null());
    assert_eq!(d.get("reasoning_length").and_then(|v| v.as_u64()), Some(REASON.len() as u64));
    let out = rejected_output(&a, "weird", "http://s");
    assert_eq!(out._internal.next_action, "fix_command");
    assert_eq!(out._internal.wait_seconds, None);

    let resp = Json::Object(vec![(
        "data".to_string(),
        Json::Object(vec![
            ("order_status".to_string(), Json::Str("filled".to_string())),
            ("tickets_filled".to_string(), Json::Number(JsonNumber::PosInt(300))),
            ("payout_if_correct".to_string(), Json::Number(JsonNumber::PosInt(520))),
        ]),
    )]);
    let out = accepted_output(&a, resp);
    assert_eq!(out.user_message, "Submitted UP for btc-15m-1. Filled 300/300 tickets. Payout if correct: 520 chips.");
    let out = accepted_output(&a, Json::Object(vec![]));
    assert_eq!(
        out.user_message,
        "Submitted UP for btc-15m-1. 300 tickets queued (no immediate fill). Chips locked until market close."
    );
}

#[test]
fn signature_covers_body_members() {
    let body = submission_body("m7", "down", 250, REASON, Some("0.42"));
    let lp = match body.get("limit_price") {
        Some(Json::Number(JsonNumber::Float(t))) => Some(t.as_str()),
        _ => None,
    };
    let rebuilt = canonical_body(
        body.get("market_id").and_then(|v| v.as_str()).unwrap(),
        body.get("prediction").and_then(|v| v.as_str()).unwrap(),
        lp,
        body.get("tickets").and_then(|v| v.as_u64()).unwrap() as u32,
        body.get("reasoning").and_then(|v| v.as_str()).unwrap(),
    );
    assert_eq!(rebuilt, canonical_body("m7", "down", Some("0.42"), 250, REASON));
    let plain = submission_body("m7", "up", 100, REASON, None);
    assert!(plain.get("limit_price").is_none());
}

#[test]
fn reasoning_length_counts_characters() {
    // 40 arrows: 40 characters, 120 bytes.
    let arrows = "\u{2192}".repeat(40);
    let e = validate_submission(&args("up", 100, &arrows, None)).unwrap();
    let err = e.error.as_ref().unwrap();
    assert_eq!(err.code, "REASONING_TOO_SHORT");
    assert_eq!(e.user_message, "Reasoning too short: 40 characters (minimum 80).");
    let debug = err.debug.as_ref().unwrap();
    assert_eq!(debug.get("reasoning_length").and_then(|v| v.as_u64()), Some(40));
    assert_eq!(debug.get("minimum_length").and_then(|v| v.as_u64()), Some(80));
    // 80 arrows pass.
    let arrows = "\u{2192}".repeat(80);
    assert!(validate_submission(&args("up", 100, &arrows, None)).is_none());
    // 79 characters fail, 80 pass.
    let e = validate_submission(&args("up", 100, &"a".repeat(79), None)).unwrap();
    assert_eq!(e.user_message, "Reasoning too short: 79 characters (minimum 80).");
    assert!(validate_submission(&args("up", 100, &"a".repeat(80), None)).is_none());
}

#[test]
fn digest_text_is_sixty_four_hex_digits() {
    for s in ["", "abc", "\u{2192}\u{2192}", REASON] {
        let h = sha256_hex(s);
        assert_eq!(h.len(), 64);
        assert!(h.chars().all(|c| c.is_ascii_hexdigit() && !c.is_ascii_uppercase()));
    }
}

#[test]
fn server_error_from_parsed_json() {
    let v = Json::Object(vec![(
        "error".to_string(),
        Json::Object(vec![
            ("code".to_string(), Json::Str("MARKET_CLOSED".to_string())),
            ("retryable".to_string(), Json::Bool(true)),
            ("message".to_string(), Json::Str("closed".to_string())),
        ]),
    )]);
    let e = server_error_from_json(&v).unwrap();
    assert_eq!(e.code, "MARKET_CLOSED");
    assert_eq!(e.category, "unknown");
    assert!(e.retryable);
    assert_eq!(e.suggestion, "");
    assert_eq!(error_message_from_json(&v).as_deref(), Some("closed"));
    let no_code = Json::Object(vec![("error".to_string(), Json::Object(vec![]))]);
    assert!(server_error_from_json(&no_code).is_none());
    assert!(error_message_from_json(&no_code).is_none());
    assert!(server_error_from_json(&Json::Null).is_none());
}
