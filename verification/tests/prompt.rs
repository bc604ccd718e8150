use predict_agent::json::{Json, JsonNumber};
use predict_agent::prompt::{
    best_prices, closes_in, last_prediction, market_head, order_line, order_lines, other_markets, persona_intro,
    persona_style, recent_results, server_hints, submissions_line, timeslot_line, volume_line,
};
use predict_agent::prompt::{kline_rows_start, member_total};
use predict_agent::prompt::{assemble_prompt, kline_section, market_section, orders_section, state_section, PromptFigures};

fn conv(v: serde_json::Value) -> Json {
    match v {
        serde_json::Value::Null => Json::Null,
        serde_json::Value::Bool(b) => Json::Bool(b),
        serde_json::Value::Number(n) => Json::Number(match (n.as_u64(), n.as_i64()) {
            (Some(u), _) => JsonNumber::PosInt(u),
            (None, Some(i)) => JsonNumber::NegInt(i),
            _ => JsonNumber::Float(n.to_string()),
        }),
        serde_json::Value::String(s) => Json::Str(s),
        serde_json::Value::Array(a) => Json::Array(a.into_iter().map(conv).collect()),
        serde_json::Value::Object(m) => Json::Object(m.into_iter().map(|(k, x)| (k, conv(x))).collect()),
    }
}

fn j(text: &str) -> Json {
    conv(serde_json::from_str(text).unwrap())
}

#[test]
fn persona_lines() {
    assert_eq!(persona_intro("none"), "You are a prediction agent competing in AWP Predict WorkNet.\n\n");
    assert_eq!(
        persona_intro("degen"),
        "You are a prediction agent competing in AWP Predict WorkNet (persona: degen).\n\n"
    );
    assert!(persona_style("sniper").starts_with("**Your style (sniper):**"));
    assert!(persona_style("contrarian").contains("Fade the crowd"));
    assert_eq!(persona_style("chartist"), "");
}

#[test]
fn submission_budget_lines() {
    assert_eq!(submissions_line(3), "- **Submissions remaining: 3/3** \u{2014} use all 3 before timeslot ends!\n");
    assert_eq!(submissions_line(2), "- **Submissions remaining: 2/3** \u{2014} 2 left, keep submitting!\n");
    assert_eq!(submissions_line(1), "- **Submissions remaining: 1/3** \u{2014} last chance this timeslot!\n");
    assert_eq!(submissions_line(0), "- Submissions: 0/3 remaining \u{2014} wait for next timeslot\n");
    assert_eq!(timeslot_line(0, 3), "");
    assert_eq!(timeslot_line(700, 3), "- Timeslot resets in 11m\n");
    assert_eq!(timeslot_line(300, 3), "- Timeslot resets in 5m0s\n");
    assert_eq!(timeslot_line(125, 2), "- **URGENT: 2m5s left! Submit NOW or lose 2 slot(s)!**\n");
    assert_eq!(timeslot_line(125, 0), "- Timeslot resets in 2m5s\n");
}

#[test]
fn open_order_lines() {
    let o = j(r#"{"asset":"BTC/USDT","window":"15m","direction":"up","tickets":300,"tickets_filled":300,"close_at":"T"}"#);
    assert_eq!(order_line(&o), "- BTC/USDT 15m UP \u{2014} FILLED 300/300 tickets, closes T\n");
    let p = j(r#"{"tickets":300,"tickets_filled":10}"#);
    assert_eq!(order_line(&p), "- ? ? ? \u{2014} PARTIAL 10/300 tickets, closes ?\n");
    let q = j(r#"{"tickets":300}"#);
    assert!(order_line(&q).contains("PENDING 0/300"));
    let many: Vec<Json> = (0..12).map(|_| j(r#"{"tickets":1,"tickets_filled":1}"#)).collect();
    assert_eq!(order_lines(&many).matches('\n').count(), 10);
}

#[test]
fn recent_results_section() {
    assert_eq!(recent_results(&vec![]), "");
    let rs = vec![
        j(r#"{"asset":"ETH","window":"1h","direction":"down","won":true,"payout_chips":500,"chips_spent":250}"#),
        j(r#"{"won":false}"#),
    ];
    assert_eq!(
        recent_results(&rs),
        "\n**Recent results (last 2, 1 wins):**\n- ETH 1h DOWN \u{2014} WON (payout: 500, spent: 250)\n- ? ? ? \u{2014} LOST (payout: 0, spent: 0)\n"
    );
    let seven: Vec<Json> = (0..7).map(|_| j(r#"{"won":true}"#)).collect();
    let text = recent_results(&seven);
    assert!(text.contains("(last 7, 7 wins)"));
    assert_eq!(text.matches("WON").count(), 5);
}

#[test]
fn recommended_market_lines() {
    let rec = j(r#"{"seconds_to_close":420,"reason":"momentum","suggested_side":"down","orderbook":{"best_up_price":"0.55","up_filled":3}}"#);
    assert_eq!(closes_in(&rec, 0, 0), 420);
    assert_eq!(
        market_head("m1", &rec, 420),
        "## Recommended Market\n\n- ID: m1\n- Asset: BTC/USDT\n- Window: 15m\n- Closes in: 420s\n"
    );
    assert_eq!(
        server_hints(&rec),
        "- Server insight: momentum\n- Liquidity favors: DOWN (counterparty orders waiting)\n"
    );
    assert_eq!(server_hints(&j(r#"{"suggested_side":"skip"}"#)), "");
    let ob = rec.get("orderbook").unwrap();
    assert_eq!(
        best_prices(ob),
        "- **Best prices available:**\n  - Buy UP: 0.55 (bid at this price to get filled)\n  - Buy DOWN: no orders (your order will wait for counterparty)\n"
    );
    assert_eq!(best_prices(&j("{}")), "");
    assert_eq!(volume_line(ob), "- Volume: UP filled=3 open=0, DOWN filled=0 open=0\n");
    let by_time = j(r#"{"close_at":"2026-01-01T00:02:00Z"}"#);
    assert_eq!(closes_in(&by_time, 1767225600, 0), 120);
    assert_eq!(closes_in(&by_time, 1767225700, 0), 20);
    assert_eq!(closes_in(&by_time, 1767229999, 0), 0);
    assert_eq!(closes_in(&j("{}"), 0, 0), 0);
}

#[test]
fn last_prediction_section() {
    assert_eq!(last_prediction(&j(r#"{"last_prediction":null}"#)), "");
    let rec = j(r#"{"asset":"SOL","last_prediction":{"direction":"up","won":false,"outcome":"down","reasoning_text":"r"}}"#);
    assert_eq!(
        last_prediction(&rec),
        "\n**Your last prediction on SOL:**\n- Direction: UP\n- Result: LOST (outcome was down)\n- Your reasoning was: \"r\"\n- Consider: was your thesis correct? Should you continue or reverse?\n"
    );
    let pending = j(r#"{"last_prediction":{}}"#);
    assert!(last_prediction(&pending).contains("- Result: pending (market not yet resolved)\n"));
    assert!(!last_prediction(&pending).contains("Your reasoning was"));
}

#[test]
fn other_market_lines() {
    assert_eq!(other_markets(&vec![j("{}")]), "");
    let ms = vec![
        j(r#"{"market_id":"first"}"#),
        j(r#"{"market_id":"m2","asset":"ETH","window":"1h","score":7,"suggested_side":"up","reason":"r","last_prediction":{"direction":"down","won":true}}"#),
        j(r#"{"id":"m3","market_id":5}"#),
    ];
    let text = other_markets(&ms);
    assert!(text.starts_with("## Other Markets (server-ranked)\n\n- m2 (ETH 1h) score=7 suggested=up [last: down won] \u{2014} r\n"));
    assert!(text.contains("- ? (? ?) score=0 suggested=? \u{2014} \n"));
    let many: Vec<Json> = (0..12).map(|i| j(&format!("{{\"id\":\"x{i}\"}}"))).collect();
    let text = other_markets(&many);
    assert!(text.contains("x8") && !text.contains("x9") && !text.contains("x0 "));
}

#[test]
fn only_the_latest_twenty_candles_are_shown() {
    assert_eq!(kline_rows_start(0), 0);
    assert_eq!(kline_rows_start(5), 0);
    assert_eq!(kline_rows_start(20), 0);
    assert_eq!(kline_rows_start(21), 1);
    assert_eq!(kline_rows_start(100), 80);
}

#[test]
fn open_order_totals() {
    let orders = vec![
        j(r#"{"tickets":300,"tickets_filled":120}"#),
        j(r#"{"tickets":200}"#),
        j(r#"{"tickets":"x","tickets_filled":-20}"#),
    ];
    assert_eq!(member_total(&orders, "tickets"), Some(500));
    assert_eq!(member_total(&orders, "tickets_filled"), Some(100));
    assert_eq!(member_total(&[], "tickets"), Some(0));
    let huge = vec![j(r#"{"tickets":9223372036854775807}"#), j(r#"{"tickets":1}"#)];
    assert_eq!(member_total(&huge, "tickets"), None);
}

fn figures() -> PromptFigures {
    PromptFigures {
        rules: "RULES\n".to_string(),
        balance_line: "- Balance: 1000 chips\n".to_string(),
        sizing_line: "SIZING\n".to_string(),
        fill_rate: 40,
        implied_up_line: "- implied_up_prob: 0.60\n".to_string(),
        spread_line: "SPREAD\n".to_string(),
        odds_line: "ODDS\n".to_string(),
        kline_rows: "ROWS\n".to_string(),
    }
}

#[test]
fn prompt_sections() {
    let f = figures();
    let state = state_section(&f, 2, 300, 7);
    assert!(state.starts_with("## Your Current State\n\n- Balance: 1000 chips\nSIZING\n"));
    assert!(state.ends_with("- Available markets: 7\n"));
    assert_eq!(orders_section(&vec![], 40), "");
    let orders = vec![j(r#"{"asset":"BTC","window":"15m","direction":"up","tickets":300,"tickets_filled":120,"close_at":"t"}"#)];
    let o = orders_section(&orders, 40);
    assert!(o.starts_with("\n**Your open orders (1, fill rate: 40%)**\n- BTC 15m UP"));
    assert!(o.ends_with("Betting both UP and DOWN on the same market guarantees a loss.\n\n"));
    assert_eq!(kline_section(0, "ROWS\n"), "## Klines\n\nNo kline data available. Use market data and general market awareness.\n\n");
    assert_eq!(
        kline_section(30, "ROWS\n"),
        "## Klines (30 candles)\n\ntime | open | high | low | close | volume\n--- | --- | --- | --- | --- | ---\nROWS\n\n"
    );
    // The spread line appears only when the order book quotes a side.
    let quoted = j(r#"{"orderbook":{"best_up_price":"0.6"}}"#);
    let unquoted = j(r#"{"orderbook":{}}"#);
    assert!(market_section("m", &quoted, 600, &f).contains("SPREAD"));
    assert!(!market_section("m", &unquoted, 600, &f).contains("SPREAD"));
    assert!(!market_section("m", &j("{}"), 600, &f).contains("SPREAD"));
    assert!(market_section("m", &j("{}"), 600, &f).ends_with("ODDS\n\n"));
}

#[test]
fn prompt_is_assembled_in_order() {
    let f = figures();
    let rec = j(r#"{"orderbook":{"best_down_price":"0.4"}}"#);
    let p = assemble_prompt("degen", "m1", &rec, 600, 3, 120, &[], &vec![], &vec![], 25, &f);
    let at = |s: &str| p.find(s).unwrap();
    assert!(p.starts_with("You are a prediction agent competing in AWP Predict WorkNet (persona: degen).\n\n"));
    assert!(at("RULES") < at("## Your Current State"));
    assert!(at("## Your Current State") < at("- implied_up_prob"));
    assert!(at("- implied_up_prob") < at("SPREAD"));
    assert!(at("SPREAD") < at("ODDS"));
    assert!(at("ODDS") < at("## Klines (25 candles)"));
    assert!(p.ends_with("ROWS\n\n"));
}
