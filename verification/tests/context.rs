use predict_agent::context::{
    context_failure, context_output, find_entry, kline_interval, klines_section, market_entries, market_entry,
    market_json, recommendation, submittable_ids, submitted_market_ids, urgency_order, ContextPhase, MarketEntry,
};
use predict_agent::json::{Json, JsonNumber};

fn conv(v: serde_json::Value) -> Json {
    match v {
        serde_json::Value::Null => Json::Null,
        serde_json::Value::Bool(b) => Json::Bool(b),
        serde_json::Value::Number(n) => Json::Number(match (n.as_u64(), n.as_i64()) {
            (Some(u), _) => JsonNumber::PosInt(u),
            (None, Some(i)) => JsonNumber::NegInt(i),
            _ => JsonNumber::Float(n.to_string()),
        }),
        serde_json::Value::String(s) => Json::Str(s),
        serde_json::Value::Array(a) => Json::Array(a.into_iter().map(conv).collect()),
        serde_json::Value::Object(m) => Json::Object(m.into_iter().map(|(k, x)| (k, conv(x))).collect()),
    }
}

fn j(text: &str) -> Json {
    conv(serde_json::from_str(text).unwrap())
}

const NOW: i64 = 1767225600; // 2026-01-01T00:00:00Z

fn entry(id: &str, closes_in: i64, submitted: bool) -> MarketEntry {
    MarketEntry {
        id: id.to_string(),
        asset: "BTC/USDT".to_string(),
        window: "15m".to_string(),
        question: String::new(),
        close_at: String::new(),
        closes_in,
        already_submitted: submitted,
        up_tickets: 0,
        down_tickets: 0,
        participant_count: 0,
        prediction_count: 0,
    }
}

#[test]
fn market_entry_reads_time_left() {
    let m = j(r#"{"id":"btc-1","close_at":"2026-01-01T00:10:00Z","asset":"BTC/USDT","window":"15m","up_tickets_filled":300,"down_tickets_filled":100}"#);
    let e = market_entry(&m, NOW, 0, &vec![]).unwrap();
    assert_eq!(e.id, "btc-1");
    assert_eq!(e.closes_in, 600);
    assert!(!e.already_submitted);
    assert_eq!(e.up_tickets, 300);
    assert_eq!(e.down_tickets, 100);
    assert_eq!(e.question, "");
    // Half a second later the whole seconds left drop to 599.
    let e = market_entry(&m, NOW, 500_000_000, &vec!["btc-1".to_string()]).unwrap();
    assert_eq!(e.closes_in, 599);
    assert!(e.already_submitted);
}

#[test]
fn market_entry_skips_closed_and_unreadable() {
    let closed = j(r#"{"id":"a","close_at":"2025-12-31T23:59:00Z"}"#);
    assert!(market_entry(&closed, NOW, 0, &vec![]).is_none());
    let bad_time = j(r#"{"id":"a","close_at":"tomorrow"}"#);
    assert!(market_entry(&bad_time, NOW, 0, &vec![]).is_none());
    let no_id = j(r#"{"close_at":"2026-01-01T00:10:00Z"}"#);
    assert!(market_entry(&no_id, NOW, 0, &vec![]).is_none());
    let all = vec![closed, j(r#"{"id":"b","close_at":"2026-01-01T01:00:00Z"}"#), bad_time];
    let es = market_entries(&all, NOW, 0, &vec![]);
    assert_eq!(es.len(), 1);
    assert_eq!(es[0].id, "b");
    assert_eq!(es[0].closes_in, 3600);
}

#[test]
fn urgency_order_is_stable_and_filtered() {
    let es = vec![
        entry("late", 900, false),
        entry("done", 300, true),
        entry("soon", 200, false),
        entry("too-soon", 120, false),
        entry("tie-a", 500, false),
        entry("tie-b", 500, false),
    ];
    assert_eq!(urgency_order(&es), vec![2, 4, 5, 0]);
    assert_eq!(submittable_ids(&es), vec!["soon", "tie-a", "tie-b", "late"]);
    assert_eq!(find_entry(&es, "tie-b"), Some(5));
    assert_eq!(find_entry(&es, "nope"), None);
}

#[test]
fn recommended_market_is_most_urgent() {
    let es = vec![entry("x", 1000, false), entry("y", 130, false), entry("z", 100, false)];
    let ids = submittable_ids(&es);
    assert_eq!(ids[0], "y");
    for e in &es {
        if !e.already_submitted && e.closes_in > 120 {
            assert!(es[find_entry(&es, &ids[0]).unwrap()].closes_in <= e.closes_in);
        }
    }
    let none = submittable_ids(&vec![entry("z", 100, false), entry("w", 5000, true)]);
    assert!(none.is_empty());
}

#[test]
fn submitted_ids_from_predictions() {
    let preds = vec![j(r#"{"market_id":"a"}"#), j(r#"{"other":1}"#), j(r#"{"market_id":"b"}"#)];
    assert_eq!(submitted_market_ids(&preds), vec!["a", "b"]);
}

#[test]
fn recommendation_object() {
    let r = recommendation(&vec!["m1".to_string(), "m2".to_string()]);
    assert_eq!(r.get("action").and_then(|v| v.as_str()), Some("submit"));
    assert_eq!(r.get("market_id").and_then(|v| v.as_str()), Some("m1"));
    let w = recommendation(&vec![]);
    assert_eq!(w.get("action").and_then(|v| v.as_str()), Some("wait"));
    assert!(w.get("market_id").unwrap().is_null());
    assert_eq!(
        w.get("reason").and_then(|v| v.as_str()),
        Some("No submittable markets (all submitted or closing too soon). Wait for new markets.")
    );
}

#[test]
fn kline_intervals() {
    assert_eq!(kline_interval("15m"), "1m");
    assert_eq!(kline_interval("30m"), "5m");
    assert_eq!(kline_interval("1h"), "15m");
    assert_eq!(kline_interval("4h"), "1m");
}

#[test]
fn klines_section_shape() {
    assert!(klines_section(None, "BTC/USDT", "1h", "m").is_null());
    let s = klines_section(Some(Json::Array(vec![])), "ETH/USDT", "30m", "eth-30m");
    assert_eq!(s.get("interval").and_then(|v| v.as_str()), Some("5m"));
    assert_eq!(s.get("asset").and_then(|v| v.as_str()), Some("ETH/USDT"));
    assert_eq!(s.get("market_id").and_then(|v| v.as_str()), Some("eth-30m"));
}

#[test]
fn market_json_fields() {
    let mut e = entry("btc-1", 600, false);
    e.up_tickets = 7;
    let m = market_json(&e, true);
    assert_eq!(m.get("closes_in_seconds").and_then(|v| v.as_i64()), Some(600));
    assert_eq!(m.get("recommended").and_then(|v| v.as_bool()), Some(true));
    assert_eq!(m.get("stats").and_then(|s| s.get("up_tickets")).and_then(|v| v.as_i64()), Some(7));
}

#[test]
fn context_output_submit_and_wait() {
    let out = context_output(j("{}"), vec![], Json::Null, vec!["m1".to_string(), "m2".to_string()]);
    assert!(out.ok);
    assert_eq!(out.user_message, "2 submittable markets. Recommended: m1.");
    assert_eq!(out._internal.next_action, "submit");
    assert_eq!(
        out._internal.next_command.as_deref(),
        Some("predict-agent submit --market m1 --prediction <up|down> --tickets <N> --reasoning \"<your analysis>\"")
    );
    assert_eq!(out._internal.submittable_markets, Some(vec!["m1".to_string(), "m2".to_string()]));
    assert_eq!(out._internal.wait_seconds, None);

    let out = context_output(j("{}"), vec![], Json::Null, vec![]);
    assert_eq!(out._internal.next_action, "wait");
    assert_eq!(out._internal.wait_seconds, Some(300));
    assert_eq!(out._internal.next_command.as_deref(), Some("predict-agent context"));
    assert_eq!(out._internal.submittable_markets, None);
}

#[test]
fn context_failures() {
    let out = context_failure(ContextPhase::Markets, "http://x", "boom", "boom: cause");
    let e = out.error.as_ref().unwrap();
    assert_eq!(out.user_message, "Failed to fetch markets: boom");
    assert_eq!(e.code, "MARKETS_FAILED");
    assert!(e.retryable);
    assert_eq!(e.debug.as_ref().unwrap().get("phase").and_then(|v| v.as_str()), Some("fetch_markets"));
    assert_eq!(out._internal.wait_seconds, Some(10));
    let out = context_failure(ContextPhase::AgentStatus, "http://x", "down", "down");
    assert_eq!(out.error.as_ref().unwrap().code, "STATUS_FAILED");
}
