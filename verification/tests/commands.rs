use predict_agent::commands::{
    cancel_failure, cancel_path, cancel_success, challenge_failure, challenge_path, challenge_success,
    chip_feed_failure, chip_feed_success, format_order, history_failure, history_path, market_path, orders_failure,
    orders_path, orders_success, pending_result, persona_body, persona_failure, persona_success, resolved_result,
    result_failure, status_balance, status_failure, status_success,
};
use predict_agent::json::{Json, JsonNumber};

fn conv(v: serde_json::Value) -> Json {
    match v {
        serde_json::Value::Null => Json::Null,
        serde_json::Value::Bool(b) => Json::Bool(b),
        serde_json::Value::Number(n) => Json::Number(match (n.as_u64(), n.as_i64()) {
            (Some(u), _) => JsonNumber::PosInt(u),
            (None, Some(i)) => JsonNumber::NegInt(i),
            _ => JsonNumber::Float(n.to_string()),
        }),
        serde_json::Value::String(s) => Json::Str(s),
        serde_json::Value::Array(a) => Json::Array(a.into_iter().map(conv).collect()),
        serde_json::Value::Object(m) => Json::Object(m.into_iter().map(|(k, x)| (k, conv(x))).collect()),
    }
}

fn j(text: &str) -> Json {
    conv(serde_json::from_str(text).unwrap())
}

fn s<'a>(v: &'a Json, k: &str) -> Option<&'a str> {
    v.get(k).and_then(|x| x.as_str())
}

#[test]
fn cancel_paths_and_codes() {
    assert_eq!(cancel_path(42), "/api/v1/orders/42");
    assert_eq!(cancel_path(-3), "/api/v1/orders/-3");
    let cases = [
        ("HTTP 404: {\"error\":{\"code\":\"NOT_FOUND\"}}", "ORDER_NOT_FOUND"),
        ("FORBIDDEN", "FORBIDDEN"),
        ("ORDER_NOT_CANCELLABLE", "ORDER_NOT_CANCELLABLE"),
        ("MARKET_CLOSED", "MARKET_CLOSED"),
        ("timeout", "CANCEL_FAILED"),
    ];
    for (err, code) in cases {
        let out = cancel_failure(7, err);
        assert!(!out.ok);
        assert_eq!(out.error.as_ref().unwrap().code, code);
        assert_eq!(out.user_message, format!("Failed to cancel order: {err}"));
        assert_eq!(out._internal.next_command.as_deref(), Some("predict-agent orders --status open"));
    }
}

#[test]
fn cancel_success_message() {
    let resp = j(r#"{"data":{"tickets_cancelled":300,"chips_refunded":"150.5","balance":"9000"}}"#);
    let out = cancel_success(9, resp);
    assert!(out.ok);
    assert_eq!(
        out.user_message,
        "Order 9 cancelled. 300 tickets cancelled, 150.5 chips refunded. New balance: 9000."
    );
    let out = cancel_success(9, j("{}"));
    assert_eq!(out.user_message, "Order 9 cancelled. 0 tickets cancelled, 0 chips refunded. New balance: 0.");
    assert_eq!(s(out.data.as_ref().unwrap(), "balance"), Some("0"));
}

#[test]
fn challenge_flow() {
    assert_eq!(challenge_path("btc-15m"), "/api/v1/challenge?market_id=btc-15m");
    let out = challenge_success("btc-15m", j(r#"{"data":{"nonce":"n1","expires_in":90,"prompt":"p"}}"#));
    assert!(out.user_message.starts_with("Challenge issued for btc-15m. Nonce expires in 90s."));
    assert_eq!(
        out._internal.next_command.as_deref(),
        Some("predict-agent submit --market btc-15m --prediction <up|down> --tickets N --reasoning \"...\" --challenge-nonce n1")
    );
    assert_eq!(s(out.data.as_ref().unwrap(), "prompt"), Some("p"));
    let out = challenge_success("m", j("{}"));
    assert!(out.user_message.contains("Nonce expires in 180s"));
    let fail = challenge_failure("m", "boom");
    assert_eq!(fail.error.as_ref().unwrap().code, "CHALLENGE_FETCH_FAILED");
    assert!(fail.error.as_ref().unwrap().retryable);
    assert_eq!(fail._internal.wait_seconds, Some(10));
}

#[test]
fn chip_feed_outputs() {
    let out = chip_feed_success(j(r#"{"data":{"fed":4,"agents":[]}}"#));
    assert_eq!(out.user_message, "Chip feed complete. 4 agents topped up.");
    let out = chip_feed_failure("HTTP 403");
    assert_eq!(out.user_message, "Admin chip-feed failed: HTTP 403");
    assert_eq!(out.error.as_ref().unwrap().category, "auth");
}

#[test]
fn status_outputs() {
    let resp = j(r#"{"data":{"total_predictions":12,"balance":"1234.5678","persona":"sniper"}}"#);
    assert_eq!(status_balance(&resp), "1234.5678");
    let out = status_success(resp, "1234.57");
    assert_eq!(out.user_message, "Agent status: 12 total predictions, 1234.57 chips balance, persona: sniper.");
    let out = status_success(j("{}"), "0");
    assert_eq!(out.user_message, "Agent status: 0 total predictions, 0 chips balance, persona: none.");
    assert_eq!(status_balance(&j("{}")), "0");
    let out = status_failure("http://s", "e", "e: c");
    assert_eq!(out.error.as_ref().unwrap().code, "STATUS_FAILED");
    assert_eq!(s(out.error.as_ref().unwrap().debug.as_ref().unwrap(), "error_chain"), Some("e: c"));
}

#[test]
fn history_outputs() {
    assert_eq!(history_path(20), "/api/v1/predictions/me?limit=20");
    let out = history_failure("http://s", 5, "e", "chain");
    assert_eq!(out._internal.next_command.as_deref(), Some("predict-agent history --limit 5"));
    let d = out.error.as_ref().unwrap().debug.as_ref().unwrap();
    assert_eq!(d.get("limit").and_then(|v| v.as_u64()), Some(5));
}

#[test]
fn persona_outputs() {
    assert_eq!(s(&persona_body("degen"), "persona"), Some("degen"));
    let out = persona_failure("degen", "HTTP 429: {\"error\":{\"code\":\"PERSONA_COOLDOWN\",\"message\":\"wait 3 days\"}}", "u");
    let e = out.error.as_ref().unwrap();
    assert_eq!(e.code, "PERSONA_COOLDOWN");
    assert_eq!(e.category, "validation");
    assert!(!e.retryable);
    assert_eq!(out.user_message, "Failed to set persona: wait 3 days");
    let out = persona_failure("degen", "connection refused", "u");
    let e = out.error.as_ref().unwrap();
    assert_eq!(e.code, "SET_PERSONA_FAILED");
    assert_eq!(e.category, "network");
    assert!(e.retryable);
    assert_eq!(out.user_message, "Failed to set persona: connection refused");
    let ok = persona_success("chartist", j(r#"{"data":{"persona":"chartist"}}"#));
    assert_eq!(ok.user_message, "Persona updated to 'chartist'. 7-day cooldown started.");
}

#[test]
fn result_pending_and_resolved() {
    assert_eq!(market_path("m1"), "/api/v1/markets/m1");
    let open = j(r#"{"status":"open","close_at":"2026-01-01T00:15:00Z"}"#);
    let out = pending_result("m1", &open).unwrap();
    assert_eq!(out.user_message, "Market m1 is still open. Check back after it resolves (closes at 2026-01-01T00:15:00Z).");
    assert_eq!(out._internal.wait_seconds, Some(60));
    assert_eq!(out._internal.next_command.as_deref(), Some("predict-agent result --market m1"));

    let market = j(r#"{"status":"resolved","outcome":"up","open_price":"1","resolve_price":"2"}"#);
    assert!(pending_result("m1", &market).is_none());
    let preds = vec![
        j(r#"{"market_id":"other","direction":"down"}"#),
        j(r#"{"market_id":"m1","direction":"up","payout_chips":"500","tickets_filled":500}"#),
    ];
    let out = resolved_result("m1", &market, &preds);
    assert_eq!(
        out.user_message,
        "Market m1 resolved UP. You predicted UP \u{2014} CORRECT! Payout: 500 chips (500 tickets filled)."
    );
    let d = out.data.as_ref().unwrap();
    assert_eq!(d.get("correct").and_then(|v| v.as_bool()), Some(true));
    assert_eq!(s(d, "payout_received"), Some("500"));

    let wrong = vec![j(r#"{"market_id":"m1","direction":"down","tickets_filled":3}"#)];
    let out = resolved_result("m1", &market, &wrong);
    assert_eq!(out.user_message, "Market m1 resolved UP. You predicted DOWN \u{2014} WRONG. No payout (3 tickets filled).");
    assert_eq!(out.data.as_ref().unwrap().get("correct").and_then(|v| v.as_bool()), Some(false));

    let out = resolved_result("m1", &market, &vec![]);
    assert_eq!(out.user_message, "Market m1 resolved UP. You did not submit a prediction for this market.");
    assert!(out.data.as_ref().unwrap().get("your_prediction").unwrap().is_null());

    let fail = result_failure("m9", "u", "HTTP 404");
    assert_eq!(fail.user_message, "Market m9 not found: HTTP 404");
    assert_eq!(fail.error.as_ref().unwrap().code, "MARKET_NOT_FOUND");
}

#[test]
fn orders_listing() {
    assert_eq!(orders_path(20, "all", None), "/api/v1/orders/me?limit=20&status=all");
    assert_eq!(orders_path(5, "open", Some("m1")), "/api/v1/orders/me?limit=5&status=open&market_id=m1");
    let o = format_order(j(r#"{"id":5,"tickets":400,"tickets_filled":100,"status":"partial","pnl":null}"#));
    assert_eq!(s(&o, "fill_ratio"), Some("100/400"));
    assert_eq!(s(&o, "status"), Some("partial"));
    assert_eq!(o.get("id").and_then(|v| v.as_i64()), Some(5));
    assert!(o.get("market_id").unwrap().is_null());
    assert_eq!(o.get("can_cancel").and_then(|v| v.as_bool()), Some(false));
    assert_eq!(o.get("tickets_pending").and_then(|v| v.as_i64()), Some(0));

    let resp = j(r#"{"data":{"orders":[{"id":1,"tickets":100},{"id":2}],"summary":{"open":1,"total_pending_tickets":100}}}"#);
    let out = orders_success(resp);
    assert_eq!(
        out.user_message,
        "2 orders found. 1 open with 100 pending tickets. Use 'predict-agent cancel --order <id>' to cancel."
    );
    assert_eq!(out._internal.next_action, "review_or_cancel");
    let orders = out.data.as_ref().unwrap().get("orders").and_then(|v| v.as_array()).unwrap();
    assert_eq!(orders.len(), 2);
    assert_eq!(s(&orders[1], "fill_ratio"), Some("0/0"));
    assert_eq!(s(&orders[1], "status"), Some("unknown"));

    let out = orders_success(j("{}"));
    assert_eq!(out.user_message, "0 orders found. No open orders to cancel.");
    assert_eq!(out._internal.next_action, "fetch_context");
    assert!(matches!(out.data.as_ref().unwrap().get("summary"), Some(Json::Object(m)) if m.is_empty()));

    let fail = orders_failure("u", "down");
    assert_eq!(fail.error.as_ref().unwrap().code, "ORDERS_FAILED");
}

#[test]
fn history_listing() {
    let preds = vec![j(r#"{"market_id":"a","payout_chips":"10"}"#), j(r#"{"market_id":"b"}"#)];
    let out = predict_agent::commands::history_success(preds, 1, "0.5", "50.0");
    assert_eq!(out.user_message, "Last 2 predictions. 1 correct (50.0% accuracy).");
    let d = out.data.as_ref().unwrap();
    assert_eq!(d.get("predictions").and_then(|v| v.as_array()).map(|a| a.len()), Some(2));
    let summary = d.get("summary").unwrap();
    assert_eq!(summary.get("count").and_then(|v| v.as_u64()), Some(2));
    assert_eq!(summary.get("correct").and_then(|v| v.as_u64()), Some(1));
    assert!(matches!(summary.get("accuracy"), Some(Json::Number(JsonNumber::Float(t))) if t == "0.5"));
}
