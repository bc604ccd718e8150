use predict_agent::llm::{extract_json, parse_llm_response, LlmDecision, LlmParseError, TicketRequest};

const REASON: &str = "BTC has printed three higher lows on the 1m chart. Momentum favors a push up into the close of this window.";

#[test]
fn finds_decision_json() {
    let text = format!("thinking...\nDECISION: {{\"action\": \"submit\", \"direction\": \"UP\", \"reasoning\": \"{REASON}\", \"tickets\": 500}}\n");
    let j = extract_json(&text).unwrap();
    assert!(j.starts_with('{') && j.ends_with('}'));
    match parse_llm_response(&text).unwrap() {
        LlmDecision::Submit { direction, tickets, market_id, limit_price_text, .. } => {
            assert_eq!(direction, "up");
            assert_eq!(tickets, TicketRequest::Count(500));
            assert_eq!(market_id, None);
            assert_eq!(limit_price_text, None);
        }
        other => panic!("unexpected {other:?}"),
    }
}

#[test]
fn fenced_and_skip() {
    let text = "```json\n{\"action\":\"skip\",\"reasoning\":\"nothing clear\"}\n```";
    assert_eq!(parse_llm_response(text), Ok(LlmDecision::Skip { reason: "nothing clear".to_string() }));
    assert_eq!(
        parse_llm_response("{\"action\":\"SKIP\"}"),
        Ok(LlmDecision::Skip { reason: "No reason provided".to_string() })
    );
}

#[test]
fn decision_errors() {
    assert_eq!(parse_llm_response("no json here"), Err(LlmParseError::NoJson));
    assert_eq!(parse_llm_response("{\"direction\":\"sideways\"}"), Err(LlmParseError::InvalidDirection));
    assert_eq!(
        parse_llm_response("{\"direction\":\"down\",\"reasoning\":\"too short\"}"),
        Err(LlmParseError::ReasoningTooShort)
    );
    assert_eq!(LlmParseError::NoJson.message(), "no JSON object found in LLM response");
    assert_eq!(
        LlmParseError::InvalidJson("{x".to_string()).message(),
        "invalid JSON from LLM: {x"
    );
}

#[test]
fn ticket_and_price_kinds() {
    let text = format!("{{\"direction\":\"down\",\"reasoning\":\"{REASON}\",\"tickets\":0,\"limit_price\":0.55,\"market_id\":\"m1\"}}");
    match parse_llm_response(&text).unwrap() {
        LlmDecision::Submit { tickets, limit_price_text, market_id, .. } => {
            assert_eq!(tickets, TicketRequest::Count(1));
            assert_eq!(limit_price_text.as_deref(), Some("0.55"));
            assert_eq!(market_id.as_deref(), Some("m1"));
        }
        other => panic!("unexpected {other:?}"),
    }
    let text = format!("{{\"direction\":\"up\",\"reasoning\":\"{REASON}\",\"tickets\":2.5}}");
    assert!(matches!(
        parse_llm_response(&text),
        Ok(LlmDecision::Submit { tickets: TicketRequest::Fractional(_), .. })
    ));
}

#[test]
fn reasoning_length_counts_characters_in_llm_answer() {
    let arrows = "\u{2192}".repeat(40);
    let text = format!("{{\"direction\":\"up\",\"reasoning\":\"{arrows}\"}}");
    assert_eq!(parse_llm_response(&text), Err(LlmParseError::ReasoningTooShort));
    let arrows = "\u{2192}".repeat(80);
    let text = format!("{{\"direction\":\"up\",\"reasoning\":\"{arrows}\"}}");
    assert!(matches!(parse_llm_response(&text), Ok(LlmDecision::Submit { .. })));
}

#[test]
fn extraction_is_valid_part_of_trimmed_answer() {
    let answers = [
        "  {\"direction\":\"up\"}  ".to_string(),
        "Here you go:\n```json\n {\"a\": [1, 2]} \n```\nthanks".to_string(),
        "noise {\"a\":1} more {\"b\":{\"c\":2}} tail".to_string(),
        format!("reasoning first. DECISION: {{\"direction\":\"down\",\"reasoning\":\"{REASON}\"}} done"),
    ];
    for a in answers.iter() {
        let j = extract_json(a).unwrap();
        assert!(a.trim().contains(&j));
        assert!(serde_json::from_str::<serde_json::Value>(&j).is_ok());
    }
    // A trimmed answer that is itself a JSON object, without a marker, is taken whole.
    assert_eq!(extract_json("\n {\"x\": {\"y\": 1}}\t").as_deref(), Some("{\"x\": {\"y\": 1}}"));
    assert_eq!(extract_json("noise {\"b\":{\"c\":2}} tail").as_deref(), Some("{\"b\":{\"c\":2}}"));
}
