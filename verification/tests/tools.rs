use predict_agent::client::{health_url, read_response, request_url, signing_path, Response};
use predict_agent::text::{parse_u64, take_chars, trim_str, truncate_str, truncate_str_marked, u64_to_string};
use predict_agent::tools::{
    agent_listed, agents_add_args, agents_list_args, ask_args, ask_outcome, openclaw_probes, purge_args,
    split_colon_exec, wallet_not_found, wallet_search_paths,
};

#[test]
fn path_splitting() {
    assert_eq!(split_colon_exec("/a:/b"), vec!["/a", "/b"]);
    assert_eq!(split_colon_exec(""), vec![""]);
    assert_eq!(split_colon_exec("a::b:"), vec!["a", "", "b", ""]);
}

#[test]
fn wallet_search_order() {
    let ps = wallet_search_paths("/usr/bin:/opt/x/", "/home/u");
    assert_eq!(
        ps,
        vec![
            "/usr/bin/awp-wallet",
            "/opt/x/awp-wallet",
            "/home/u/.local/bin/awp-wallet",
            "/home/u/.npm-global/bin/awp-wallet",
            "/home/u/.yarn/bin/awp-wallet",
            "/usr/local/bin/awp-wallet",
            "/usr/bin/awp-wallet",
        ]
    );
    assert_eq!(
        wallet_not_found("/h"),
        "awp-wallet not found in PATH or standard locations.\nSearched: /h/.local/bin/awp-wallet, /h/.npm-global/bin/awp-wallet, /h/.yarn/bin/awp-wallet, /usr/local/bin/awp-wallet, /usr/bin/awp-wallet\nInstall it: curl -sSL https://install.awp.sh/wallet | bash"
    );
}

#[test]
fn openclaw_search_order() {
    let ps = openclaw_probes("/a:/b", "/h");
    let expected: Vec<(String, String)> = vec![
        ("/a/openclaw", "openclaw"),
        ("/b/openclaw", "openclaw"),
        ("/a/openclaw.mjs", "openclaw.mjs"),
        ("/b/openclaw.mjs", "openclaw.mjs"),
        ("/a/openclaw.cmd", "openclaw.cmd"),
        ("/b/openclaw.cmd", "openclaw.cmd"),
        ("/h/.local/bin/openclaw", "/h/.local/bin/openclaw"),
        ("/h/.npm-global/bin/openclaw", "/h/.npm-global/bin/openclaw"),
        ("/usr/local/bin/openclaw", "/usr/local/bin/openclaw"),
    ]
    .into_iter()
    .map(|(a, b)| (a.to_string(), b.to_string()))
    .collect();
    assert_eq!(ps, expected);
}

#[test]
fn openclaw_arguments() {
    assert_eq!(agents_list_args(), vec!["agents", "list"]);
    assert!(agent_listed("- predict-worker\n- other", "predict-worker"));
    assert!(!agent_listed("- other", "predict-worker"));
    assert_eq!(
        agents_add_args("w", Some("/home/u")),
        vec!["agents", "add", "w", "--workspace", "/home/u/.openclaw/workspace-w", "--non-interactive"]
    );
    assert_eq!(agents_add_args("w", None)[4], "/tmp/.openclaw/workspace-w");
    assert_eq!(purge_args("w"), vec!["sessions", "purge", "--agent", "w", "--yes"]);
    assert_eq!(
        ask_args("w", "hi"),
        vec!["agent", "--agent", "w", "--message", "hi", "--thinking", "high", "--timeout", "180"]
    );
}

#[test]
fn model_call_outcomes() {
    assert_eq!(ask_outcome(true, Some(0), "DECISION: {}", ""), Ok("DECISION: {}".to_string()));
    assert_eq!(ask_outcome(true, Some(0), "  \n", ""), Err("openclaw returned empty response".to_string()));
    assert_eq!(
        ask_outcome(false, Some(2), "", " HTTP 429 rate limit \n"),
        Err("OpenClaw rate limited (exit 2): HTTP 429 rate limit".to_string())
    );
    assert_eq!(ask_outcome(false, None, "", "crash"), Err("openclaw failed (exit -1): crash".to_string()));
}

#[test]
fn text_helpers() {
    assert_eq!(truncate_str("h\u{e9}llo", 2), "h\u{e9}...");
    assert_eq!(truncate_str("hi", 2), "hi");
    assert_eq!(truncate_str_marked("abcdef", 3), "abc...(truncated)");
    assert_eq!(take_chars("\u{2192}ab", 2), "\u{2192}a");
    assert_eq!(trim_str("  x y \n"), "x y");
    assert_eq!(parse_u64("+42"), Some(42));
    assert_eq!(parse_u64("18446744073709551615"), Some(u64::MAX));
    assert_eq!(parse_u64("18446744073709551616"), None);
    assert_eq!(parse_u64(""), None);
    assert_eq!(parse_u64("4a"), None);
    assert_eq!(u64_to_string(907), "907");
}

#[test]
fn http_reading() {
    assert_eq!(request_url("http://s", "/api/v1/x"), "http://s/api/v1/x");
    assert_eq!(health_url("http://s"), "http://s/api/v1/feed/stats");
    assert_eq!(signing_path("/api/v1/orders/me?limit=5"), "/api/v1/orders/me");
    assert_eq!(signing_path("/a"), "/a");
    assert!(matches!(read_response(200, "{\"data\":1}"), Response::Accepted(_)));
    assert!(matches!(read_response(200, "<html>"), Response::NotJson));
    match read_response(404, "{\"error\":{\"message\":\"missing\"}}") {
        Response::Rejected { server_message, .. } => assert_eq!(server_message.as_deref(), Some("missing")),
        other => panic!("unexpected {other:?}"),
    }
    match read_response(500, "{\"message\":\"down\"}") {
        Response::Rejected { server_message, .. } => assert_eq!(server_message.as_deref(), Some("down")),
        other => panic!("unexpected {other:?}"),
    }
}

#[test]
fn signed_path_is_the_part_before_the_query() {
    for p in ["/a/b?x=1?y", "/plain", "?q", ""] {
        let s = signing_path(p);
        assert!(p.starts_with(&s));
        assert!(!s.contains('?'));
        assert!(p.len() == s.len() || p[s.len()..].starts_with('?'));
    }
}
