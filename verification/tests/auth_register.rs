use predict_agent::auth::{
    address_from_receive, address_source, auth_headers, auth_message, body_hash_hex, derive_address_from_key,
    personal_sign_hash, receive_args, sign_failure, sign_message_args, sign_with_key, signature_from_output,
    signing_mode, strip_hex_prefix, token_from_unlock, unlock_args, AddressSource, AuthError, SigningMode,
};
use predict_agent::json::{Json, JsonNumber};
use predict_agent::register::{
    address_params, already_registered, chain_params, deadline_after, is_registered, jsonrpc_request, nonce_of,
    poll_outcome, registry_contract, relay_body, rpc_result, sign_refused, sign_typed_data_args, typed_data,
    typed_signature, unconfirmed, RpcError, POLL_ATTEMPTS,
};

const KEY_ONE: &str = "0x0000000000000000000000000000000000000000000000000000000000000001";

#[test]
fn auth_message_layout() {
    assert_eq!(
        auth_message("0xabc", "2026-01-01T00:00:00Z", "post", "/api/v1/predictions", "ff"),
        "AWP Predict WorkNet\nAddress: 0xabc\nTimestamp: 2026-01-01T00:00:00Z\nMethod: POST\nPath: /api/v1/predictions\nBody-Hash: ff"
    );
}

#[test]
fn body_hash_is_sha256_hex() {
    assert_eq!(body_hash_hex(b""), "e3b0c44298fc1c149afbf4c8996fb92427ae41e4649b934ca495991b7852b855");
    assert_eq!(body_hash_hex(b"abc"), "ba7816bf8f01cfea414140de5dae2223b00361a396177a9cb410ff61f20015ad");
}

#[test]
fn address_of_key_one() {
    assert_eq!(derive_address_from_key(KEY_ONE).unwrap(), "0x7e5f4552091a69125d5dfcb7b8c2659029395bdf");
    assert_eq!(derive_address_from_key(&KEY_ONE[2..]).unwrap(), "0x7e5f4552091a69125d5dfcb7b8c2659029395bdf");
    assert_eq!(derive_address_from_key("0xzz"), Err(AuthError::InvalidKeyHex));
    let zero = "0x0000000000000000000000000000000000000000000000000000000000000000";
    assert_eq!(derive_address_from_key(zero), Err(AuthError::InvalidKey));
}

#[test]
fn signature_shape() {
    let sig = sign_with_key(KEY_ONE, "0x7e5f", "t", "GET", "/p", "h").unwrap();
    assert!(sig.starts_with("0x"));
    assert_eq!(sig.len(), 2 + 130);
    assert!(sig.ends_with("1b") || sig.ends_with("1c"));
    assert_eq!(sig, sign_with_key(KEY_ONE, "0x7e5f", "t", "GET", "/p", "h").unwrap());
    assert_ne!(sig, sign_with_key(KEY_ONE, "0x7e5f", "t", "GET", "/q", "h").unwrap());
    assert_eq!(sign_with_key("nothex", "a", "t", "GET", "/p", "h"), Err(AuthError::InvalidKeyHex));
    let h = personal_sign_hash(b"hello");
    assert_eq!(h.len(), 32);
    assert_ne!(h, personal_sign_hash(b"hellp"));
}

#[test]
fn modes_and_sources() {
    assert_eq!(signing_mode(Some("0x1"), Some("true")), SigningMode::PrivateKey("0x1".to_string()));
    assert_eq!(signing_mode(None, Some("true")), SigningMode::DevBypass);
    assert_eq!(signing_mode(None, Some("1")), SigningMode::DevBypass);
    assert_eq!(signing_mode(None, Some("yes")), SigningMode::Wallet);
    assert_eq!(signing_mode(None, None), SigningMode::Wallet);
    assert_eq!(address_source(Some("0xABC"), Some("k")), AddressSource::Given("0xabc".to_string()));
    assert_eq!(address_source(None, Some("k")), AddressSource::FromKey("k".to_string()));
    assert_eq!(address_source(None, None), AddressSource::Wallet);
    assert_eq!(strip_hex_prefix("0xff"), "ff");
    assert_eq!(strip_hex_prefix("ff"), "ff");
}

#[test]
fn wallet_tool_arguments_and_answers() {
    assert_eq!(receive_args(""), vec!["receive"]);
    assert_eq!(receive_args("a1"), vec!["receive", "--agent", "a1"]);
    assert_eq!(unlock_args(""), vec!["unlock", "--duration", "86400", "--scope", "full", "--raw"]);
    assert_eq!(sign_message_args("tok", "m"), vec!["sign-message", "--token", "tok", "--message", "m"]);
    assert_eq!(token_from_unlock("  tok123\n"), Ok("tok123".to_string()));
    assert_eq!(token_from_unlock(" \n"), Err(AuthError::EmptyToken));
    assert_eq!(sign_failure("1", " session expired \n"), AuthError::SessionExpired("session expired".to_string()));
    assert_eq!(sign_failure("2", " boom "), AuthError::WalletFailed("2".to_string(), "boom".to_string()));
    assert_eq!(
        signature_from_output("{\"signature\":\"0xs\",\"signer\":\"0xABC\"}", "0xabc"),
        Ok("0xs".to_string())
    );
    assert_eq!(
        signature_from_output("{\"signature\":\"0xs\",\"signer\":\"0xDEF\"}", "0xabc"),
        Err(AuthError::AddressMismatch { expected: "0xabc".to_string(), signer: "0xdef".to_string() })
    );
    assert_eq!(signature_from_output("{}", "0xabc"), Err(AuthError::MissingSignature));
    assert_eq!(signature_from_output(" oops ", "0xabc"), Err(AuthError::InvalidWalletJson("oops".to_string())));
    assert_eq!(address_from_receive("{\"address\":\"0xAA\"}"), Ok("0xaa".to_string()));
    assert_eq!(address_from_receive("{\"eoaAddress\":\"0xBB\",\"address\":\"0xAA\"}"), Ok("0xbb".to_string()));
    assert_eq!(address_from_receive("{}"), Err(AuthError::MissingAddress));
    let h = auth_headers("0xa", "t".to_string(), "s".to_string());
    assert_eq!((h.address.as_str(), h.timestamp.as_str(), h.signature.as_str()), ("0xa", "t", "s"));
}

#[test]
fn jsonrpc_requests_and_results() {
    let r = jsonrpc_request("address.check", address_params("0xa"));
    assert_eq!(r.get("jsonrpc").and_then(|v| v.as_str()), Some("2.0"));
    assert_eq!(r.get("id").and_then(|v| v.as_u64()), Some(1));
    assert_eq!(r.get("params").and_then(|p| p.get("chainId")).and_then(|v| v.as_u64()), Some(8453));
    assert_eq!(chain_params().get("chainId").and_then(|v| v.as_u64()), Some(8453));
    assert!(matches!(rpc_result("{\"result\":{\"isRegistered\":true}}"), Ok(Json::Object(_))));
    assert_eq!(rpc_result("nope"), Err(RpcError::InvalidJson));
    assert_eq!(
        rpc_result("{\"error\":{\"message\":\"bad\",\"code\":-32000}}"),
        Err(RpcError::Api { message: "bad".to_string(), code: -32000 })
    );
    assert_eq!(
        rpc_result("{\"error\":{}}"),
        Err(RpcError::Api { message: "unknown error".to_string(), code: 0 })
    );
    assert_eq!(rpc_result("{\"id\":1}"), Err(RpcError::NoResult));
}

#[test]
fn registration_reading() {
    let yes = Json::Object(vec![("isRegisteredUser".to_string(), Json::Bool(true))]);
    assert!(is_registered(&yes));
    assert!(!is_registered(&Json::Object(vec![])));
    let reg = Json::Object(vec![("awpRegistry".to_string(), Json::Str("0xreg".to_string()))]);
    assert_eq!(registry_contract(&reg).as_deref(), Some("0xreg"));
    let n = Json::Object(vec![("nonce".to_string(), Json::Str("17".to_string()))]);
    assert_eq!(nonce_of(&n), 17);
    let n = Json::Object(vec![("nonce".to_string(), Json::Number(JsonNumber::PosInt(5)))]);
    assert_eq!(nonce_of(&n), 5);
    let n = Json::Object(vec![("nonce".to_string(), Json::Str("x".to_string()))]);
    assert_eq!(nonce_of(&n), 0);
    assert_eq!(deadline_after(1000), 4600);
    let td = typed_data("0xa", "0xreg", 3, 4600);
    assert_eq!(td.get("primaryType").and_then(|v| v.as_str()), Some("SetRecipient"));
    assert_eq!(td.get("domain").and_then(|d| d.get("verifyingContract")).and_then(|v| v.as_str()), Some("0xreg"));
    let body = relay_body("0xa", 3, 4600, "0xsig");
    assert_eq!(body.get("recipient").and_then(|v| v.as_str()), Some("0xa"));
    assert_eq!(body.get("deadline").and_then(|v| v.as_u64()), Some(4600));
    assert_eq!(sign_typed_data_args("t", "{}"), vec!["sign-typed-data", "--token", "t", "--data", "{}"]);
    assert_eq!(sign_refused(Some(3), " denied\n"), "awp-wallet sign-typed-data failed (exit 3): denied");
    assert_eq!(sign_refused(None, "x"), "awp-wallet sign-typed-data failed (exit unknown): x");
    assert_eq!(typed_signature("{\"signature\":\"0xs\"}").as_deref(), Some("0xs"));
    assert_eq!(typed_signature("{}"), None);
}

#[test]
fn polling_settles_by_last_attempt() {
    assert!(already_registered().registered);
    assert_eq!(poll_outcome(0, false), None);
    let done = poll_outcome(1, true).unwrap();
    assert!(done.registered && done.auto_registered);
    assert_eq!(done.message, "Auto-registered on AWP network (gasless).");
    let last = poll_outcome(POLL_ATTEMPTS - 1, false).unwrap();
    assert!(last.registered);
    assert_eq!(last.message, "Registration submitted. Confirmation pending.");
    assert!(!unconfirmed().registered);
}

#[test]
fn digest_lengths() {
    for body in [&b""[..], b"abc", b"{\"market_id\":\"m\"}"] {
        assert_eq!(body_hash_hex(body).len(), 64);
    }
    for m in [&b""[..], b"hello", b"a much longer message to sign"] {
        assert_eq!(personal_sign_hash(m).len(), 32);
    }
}

fn field_list(v: Option<&Json>) -> Vec<(String, String)> {
    match v {
        Some(Json::Array(a)) => a
            .iter()
            .map(|f| {
                (
                    f.get("name").and_then(|x| x.as_str()).unwrap_or("").to_string(),
                    f.get("type").and_then(|x| x.as_str()).unwrap_or("").to_string(),
                )
            })
            .collect(),
        _ => panic!("not a field list"),
    }
}

#[test]
fn typed_data_type_lists() {
    let td = typed_data("0xa", "0xreg", 3, 4600);
    let types = td.get("types").unwrap();
    let pairs = |v: &[(&str, &str)]| v.iter().map(|(a, b)| (a.to_string(), b.to_string())).collect::<Vec<_>>();
    assert_eq!(
        field_list(types.get("EIP712Domain")),
        pairs(&[("name", "string"), ("version", "string"), ("chainId", "uint256"), ("verifyingContract", "address")])
    );
    assert_eq!(
        field_list(types.get("SetRecipient")),
        pairs(&[("user", "address"), ("recipient", "address"), ("nonce", "uint256"), ("deadline", "uint256")])
    );
}
