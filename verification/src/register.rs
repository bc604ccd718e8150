//! Registration on the AWP network through the gasless relay.
//!
//! The flow: ask `address.check` whether the address is registered; if not,
//! read the registry contract (`registry.get`) and the nonce (`nonce.get`),
//! have the wallet sign an EIP-712 `SetRecipient` message, hand it to the
//! relay, and poll `address.check` until it confirms.  The network calls,
//! the signing tool and the pauses between polls are the caller's; the
//! requests, the reading of the answers and the outcome are decided here.
use vstd::prelude::*;
use crate::json::{self, Json, JsonNumber, keys_of};
use crate::text;

verus! {

/// Base mainnet.
pub const CHAIN_ID: u64 = 8453;

/// How many times registration is polled for confirmation.
pub const POLL_ATTEMPTS: u32 = 5;

/// Seconds between confirmation polls.
pub const POLL_INTERVAL_SECS: u64 = 2;

/// The outcome of registration.
#[derive(Debug, PartialEq)]
pub struct RegistrationResult {
    pub registered: bool,
    /// Registration happened in this run.
    pub auto_registered: bool,
    pub message: String,
}

/// Why a JSON-RPC call gave no result.
#[derive(Debug, PartialEq)]
pub enum RpcError {
    /// The answer is not JSON.
    InvalidJson,
    /// The server answered with an error (its message, default `unknown
    /// error`, and code, default 0).
    Api { message: String, code: i64 },
    /// The answer has no `result`.
    NoResult,
}

/// A JSON-RPC 2.0 request for `method` with `params`.
pub fn jsonrpc_request(method: &str, params: Json) -> (r: Json)
    ensures
        keys_of(r) == seq!["jsonrpc"@, "method"@, "params"@, "id"@],
        r.field_str("jsonrpc"@) == Some("2.0"@),
        r.field_str("method"@) == Some(method@),
        r.get_spec("params"@) == Some(params),
        r.get_spec("id"@) == Some(Json::Number(JsonNumber::PosInt(1))),
{
    proof {
        reveal_strlit("jsonrpc");
        reveal_strlit("method");
        reveal_strlit("params");
        reveal_strlit("id");
        assert("jsonrpc"@.len() == 7 && "method"@.len() == 6 && "params"@.len() == 6 && "id"@.len() == 2);
        assert("method"@[0] != "params"@[0]);
        reveal_with_fuel(json::member_index_from, 5);
    }
    let r = Json::Object(vec![
        (text::to_owned_string("jsonrpc"), json::jstr("2.0")),
        (text::to_owned_string("method"), json::jstr(method)),
        (text::to_owned_string("params"), params),
        (text::to_owned_string("id"), json::juint(1)),
    ]);
    assert(keys_of(r) =~= seq!["jsonrpc"@, "method"@, "params"@, "id"@]);
    r
}

/// The parameters of `address.check` and `nonce.get`: the address and the chain.
pub fn address_params(address: &str) -> (r: Json)
    ensures
        keys_of(r) == seq!["address"@, "chainId"@],
        r.field_str("address"@) == Some(address@),
        r.get_spec("chainId"@) == Some(Json::Number(JsonNumber::PosInt(CHAIN_ID as u64))),
{
    proof {
        reveal_strlit("address");
        reveal_strlit("chainId");
        assert("address"@[0] != "chainId"@[0]);
        reveal_with_fuel(json::member_index_from, 3);
    }
    let r = Json::Object(vec![
        (text::to_owned_string("address"), json::jstr(address)),
        (text::to_owned_string("chainId"), json::juint(CHAIN_ID)),
    ]);
    assert(keys_of(r) =~= seq!["address"@, "chainId"@]);
    r
}

/// The parameters of `registry.get`: the chain.
pub fn chain_params() -> (r: Json)
    ensures
        keys_of(r) == seq!["chainId"@],
        r.get_spec("chainId"@) == Some(Json::Number(JsonNumber::PosInt(CHAIN_ID as u64))),
{
    proof {
        reveal_with_fuel(json::member_index_from, 2);
    }
    let r = Json::Object(vec![(text::to_owned_string("chainId"), json::juint(CHAIN_ID))]);
    assert(keys_of(r) =~= seq!["chainId"@]);
    r
}

/// What a JSON-RPC answer gives: the `result`, unless the answer is not
/// JSON, carries an `error`, or has no `result`.
pub open spec fn rpc_outcome_ok(resp_text: Seq<char>, r: Result<Json, RpcError>) -> bool {
    match json::json_parse(resp_text) {
        None => r matches Err(RpcError::InvalidJson),
        Some(v) => match v.get_spec("error"@) {
            Some(e) => r matches Err(RpcError::Api { message, code })
                && message@ == json::or_default(e.field_str("message"@), "unknown error"@)
                && code == json::or_default(e.field_i64("code"@), 0),
            None => match v.get_spec("result"@) {
                Some(x) => r == Ok::<Json, RpcError>(x),
                None => r matches Err(RpcError::NoResult),
            },
        },
    }
}

/// Reads a JSON-RPC answer.
pub fn rpc_result(resp_text: &str) -> (r: Result<Json, RpcError>)
    ensures
        rpc_outcome_ok(resp_text@, r),
{
    let v = match json::parse_json(resp_text) {
        Some(v) => v,
        None => {
            return Err(RpcError::InvalidJson);
        },
    };
    if let Some(e) = v.get("error") {
        let message = match e.field_str_exec("message") {
            Some(m) => text::to_owned_string(m),
            None => text::to_owned_string("unknown error"),
        };
        let code = match e.field_i64_exec("code") {
            Some(c) => c,
            None => 0,
        };
        return Err(RpcError::Api { message, code });
    }
    match json::into_member(v, "result") {
        Some(x) => Ok(x),
        None => Err(RpcError::NoResult),
    }
}

/// The address is registered: `isRegistered` or `isRegisteredUser` is true.
pub open spec fn is_registered_spec(check: Json) -> bool {
    check.field_bool("isRegistered"@) == Some(true) || check.field_bool("isRegisteredUser"@) == Some(true)
}

/// Whether an `address.check` result says the address is registered.
pub fn is_registered(check: &Json) -> (r: bool)
    ensures
        r == is_registered_spec(*check),
{
    let a = match check.field_bool_exec("isRegistered") {
        Some(b) => b,
        None => false,
    };
    let b = match check.field_bool_exec("isRegisteredUser") {
        Some(b) => b,
        None => false,
    };
    a || b
}

/// An `address.check` result says the address is registered when either
/// flag is true: `isRegistered: true` is enough whatever `isRegisteredUser`
/// says, and so is `isRegisteredUser: true`; when neither flag is true
/// (false or absent) it is not registered.
pub proof fn lemma_registered_by_either_flag(check: Json)
    ensures
        check.field_bool("isRegistered"@) == Some(true) ==> is_registered_spec(check),
        check.field_bool("isRegisteredUser"@) == Some(true) ==> is_registered_spec(check),
        check.field_bool("isRegistered"@) != Some(true) && check.field_bool("isRegisteredUser"@) != Some(true)
            ==> !is_registered_spec(check),
{
}

/// The registry contract in a `registry.get` result (`awpRegistry`).
pub fn registry_contract(registry: &Json) -> (r: Option<String>)
    ensures
        match registry.field_str("awpRegistry"@) {
            Some(a) => r is Some && r.unwrap()@ == a,
            None => r is None,
        },
{
    match registry.field_str_exec("awpRegistry") {
        Some(a) => Some(text::to_owned_string(a)),
        None => None,
    }
}

/// The nonce in a `nonce.get` result: a number, or a decimal text, else 0.
pub open spec fn nonce_spec(resp: Json) -> u64 {
    match resp.get_spec("nonce"@) {
        Some(n) => match n.u64_spec() {
            Some(u) => u,
            None => match n.str_spec() {
                Some(s) => json::or_default(text::parse_u64_spec(s), 0),
                None => 0,
            },
        },
        None => 0,
    }
}

/// The nonce in a `nonce.get` result.
pub fn nonce_of(resp: &Json) -> (r: u64)
    ensures
        r == nonce_spec(*resp),
{
    match resp.get("nonce") {
        Some(n) => match n.as_u64() {
            Some(u) => u,
            None => match n.as_str() {
                Some(s) => match text::parse_u64(s) {
                    Some(u) => u,
                    None => 0,
                },
                None => 0,
            },
        },
        None => 0,
    }
}

/// The signature deadline: one hour after `now` (Unix seconds).
pub fn deadline_after(now: u64) -> (r: u64)
    requires
        now + 3600 <= u64::MAX,
    ensures
        r == now + 3600,
{
    now + 3600
}

/// `j` is an EIP-712 field list: an array whose entries are the objects
/// `{"name": .., "type": ..}` of `fields`, in order.
pub open spec fn is_field_list(j: Json, fields: Seq<(Seq<char>, Seq<char>)>) -> bool {
    match j {
        Json::Array(a) => a@.len() == fields.len() && forall|i: int|
            0 <= i < fields.len() ==> {
                &&& keys_of(#[trigger] a@[i]) == seq!["name"@, "type"@]
                &&& a@[i].field_str("name"@) == Some(fields[i].0)
                &&& a@[i].field_str("type"@) == Some(fields[i].1)
            },
        _ => false,
    }
}

/// The fields of the EIP-712 domain, in the order the registry hashes them.
pub open spec fn domain_type_fields() -> Seq<(Seq<char>, Seq<char>)> {
    seq![("name"@, "string"@), ("version"@, "string"@), ("chainId"@, "uint256"@), ("verifyingContract"@, "address"@)]
}

/// The fields of `SetRecipient`, in the order the registry hashes them.
pub open spec fn set_recipient_type_fields() -> Seq<(Seq<char>, Seq<char>)> {
    seq![("user"@, "address"@), ("recipient"@, "address"@), ("nonce"@, "uint256"@), ("deadline"@, "uint256"@)]
}

/// The EIP-712 typed data of `SetRecipient`, naming the address as its own
/// recipient.
pub fn typed_data(address: &str, verifying_contract: &str, nonce: u64, deadline: u64) -> (r: Json)
    ensures
        keys_of(r) == seq!["types"@, "primaryType"@, "domain"@, "message"@],
        r.field_str("primaryType"@) == Some("SetRecipient"@),
        keys_of(r.get_spec("domain"@).unwrap()) == seq!["name"@, "version"@, "chainId"@, "verifyingContract"@],
        r.nested("domain"@, "name"@).unwrap().str_spec() == Some("AWPRegistry"@),
        r.nested("domain"@, "version"@).unwrap().str_spec() == Some("1"@),
        r.nested("domain"@, "chainId"@) == Some(Json::Number(JsonNumber::PosInt(CHAIN_ID as u64))),
        r.nested("domain"@, "verifyingContract"@).unwrap().str_spec() == Some(verifying_contract@),
        keys_of(r.get_spec("message"@).unwrap()) == seq!["user"@, "recipient"@, "nonce"@, "deadline"@],
        r.nested("message"@, "user"@).unwrap().str_spec() == Some(address@),
        r.nested("message"@, "recipient"@).unwrap().str_spec() == Some(address@),
        r.nested("message"@, "nonce"@) == Some(Json::Number(JsonNumber::PosInt(nonce))),
        r.nested("message"@, "deadline"@) == Some(Json::Number(JsonNumber::PosInt(deadline))),
        keys_of(r.get_spec("types"@).unwrap()) == seq!["EIP712Domain"@, "SetRecipient"@],
        is_field_list(r.nested("types"@, "EIP712Domain"@).unwrap(), domain_type_fields()),
        is_field_list(r.nested("types"@, "SetRecipient"@).unwrap(), set_recipient_type_fields()),
{
    proof {
        reveal_strlit("types");
        reveal_strlit("primaryType");
        reveal_strlit("domain");
        reveal_strlit("message");
        reveal_strlit("name");
        reveal_strlit("version");
        reveal_strlit("chainId");
        reveal_strlit("verifyingContract");
        reveal_strlit("user");
        reveal_strlit("recipient");
        reveal_strlit("nonce");
        reveal_strlit("deadline");
        assert("types"@[0] != "primaryType"@[0] && "types"@[0] != "domain"@[0] && "types"@[0] != "message"@[0]);
        assert("primaryType"@[0] != "domain"@[0] && "primaryType"@[0] != "message"@[0] && "domain"@[0] != "message"@[0]);
        assert("name"@[0] != "version"@[0] && "name"@[0] != "chainId"@[0] && "name"@[0] != "verifyingContract"@[0]);
        assert("version"@[0] != "chainId"@[0] && "version"@.len() != "verifyingContract"@.len());
        assert("chainId"@[0] != "verifyingContract"@[0]);
        assert("user"@[0] != "recipient"@[0] && "user"@[0] != "nonce"@[0] && "user"@[0] != "deadline"@[0]);
        assert("recipient"@[0] != "nonce"@[0] && "recipient"@[0] != "deadline"@[0] && "nonce"@[0] != "deadline"@[0]);
        reveal_with_fuel(json::member_index_from, 5);
    }
    let domain_fields = Json::Array(vec![
        field_type("name", "string"),
        field_type("version", "string"),
        field_type("chainId", "uint256"),
        field_type("verifyingContract", "address"),
    ]);
    let recipient_fields = Json::Array(vec![
        field_type("user", "address"),
        field_type("recipient", "address"),
        field_type("nonce", "uint256"),
        field_type("deadline", "uint256"),
    ]);
    assert(is_field_list(domain_fields, domain_type_fields()));
    assert(is_field_list(recipient_fields, set_recipient_type_fields()));
    assert("EIP712Domain"@[0] != "SetRecipient"@[0]) by {
        reveal_strlit("EIP712Domain");
        reveal_strlit("SetRecipient");
    }
    let types = Json::Object(vec![
        (text::to_owned_string("EIP712Domain"), domain_fields),
        (text::to_owned_string("SetRecipient"), recipient_fields),
    ]);
    assert(keys_of(types) =~= seq!["EIP712Domain"@, "SetRecipient"@]);
    let domain = Json::Object(vec![
        (text::to_owned_string("name"), json::jstr("AWPRegistry")),
        (text::to_owned_string("version"), json::jstr("1")),
        (text::to_owned_string("chainId"), json::juint(CHAIN_ID)),
        (text::to_owned_string("verifyingContract"), json::jstr(verifying_contract)),
    ]);
    assert(keys_of(domain) =~= seq!["name"@, "version"@, "chainId"@, "verifyingContract"@]);
    let message = Json::Object(vec![
        (text::to_owned_string("user"), json::jstr(address)),
        (text::to_owned_string("recipient"), json::jstr(address)),
        (text::to_owned_string("nonce"), json::juint(nonce)),
        (text::to_owned_string("deadline"), json::juint(deadline)),
    ]);
    assert(keys_of(message) =~= seq!["user"@, "recipient"@, "nonce"@, "deadline"@]);
    let r = Json::Object(vec![
        (text::to_owned_string("types"), types),
        (text::to_owned_string("primaryType"), json::jstr("SetRecipient")),
        (text::to_owned_string("domain"), domain),
        (text::to_owned_string("message"), message),
    ]);
    assert(keys_of(r) =~= seq!["types"@, "primaryType"@, "domain"@, "message"@]);
    r
}

fn field_type(name: &str, ty: &str) -> (r: Json)
    ensures
        r.field_str("name"@) == Some(name@),
        r.field_str("type"@) == Some(ty@),
        keys_of(r) == seq!["name"@, "type"@],
{
    proof {
        reveal_strlit("name");
        reveal_strlit("type");
        assert("name"@[0] != "type"@[0]);
        reveal_with_fuel(json::member_index_from, 3);
    }
    let r = Json::Object(vec![
        (text::to_owned_string("name"), json::jstr(name)),
        (text::to_owned_string("type"), json::jstr(ty)),
    ]);
    assert(keys_of(r) =~= seq!["name"@, "type"@]);
    r
}

/// The body handed to the gasless relay.
pub fn relay_body(address: &str, nonce: u64, deadline: u64, signature: &str) -> (r: Json)
    ensures
        keys_of(r) == seq!["user"@, "recipient"@, "nonce"@, "deadline"@, "chainId"@, "signature"@],
        r.field_str("user"@) == Some(address@),
        r.field_str("recipient"@) == Some(address@),
        r.get_spec("nonce"@) == Some(Json::Number(JsonNumber::PosInt(nonce))),
        r.get_spec("deadline"@) == Some(Json::Number(JsonNumber::PosInt(deadline))),
        r.get_spec("chainId"@) == Some(Json::Number(JsonNumber::PosInt(CHAIN_ID as u64))),
        r.field_str("signature"@) == Some(signature@),
{
    proof {
        reveal_strlit("user");
        reveal_strlit("recipient");
        reveal_strlit("nonce");
        reveal_strlit("deadline");
        reveal_strlit("chainId");
        reveal_strlit("signature");
        assert("user"@[0] != "recipient"@[0] && "user"@[0] != "nonce"@[0] && "user"@[0] != "deadline"@[0]);
        assert("user"@[0] != "chainId"@[0] && "user"@[0] != "signature"@[0] && "recipient"@[0] != "nonce"@[0]);
        assert("recipient"@[0] != "deadline"@[0] && "recipient"@[0] != "chainId"@[0] && "recipient"@[0] != "signature"@[0]);
        assert("nonce"@[0] != "deadline"@[0] && "nonce"@[0] != "chainId"@[0] && "nonce"@[0] != "signature"@[0]);
        assert("deadline"@[0] != "chainId"@[0] && "deadline"@[0] != "signature"@[0] && "chainId"@[0] != "signature"@[0]);
        reveal_with_fuel(json::member_index_from, 7);
    }
    let r = Json::Object(vec![
        (text::to_owned_string("user"), json::jstr(address)),
        (text::to_owned_string("recipient"), json::jstr(address)),
        (text::to_owned_string("nonce"), json::juint(nonce)),
        (text::to_owned_string("deadline"), json::juint(deadline)),
        (text::to_owned_string("chainId"), json::juint(CHAIN_ID)),
        (text::to_owned_string("signature"), json::jstr(signature)),
    ]);
    assert(keys_of(r) =~= seq!["user"@, "recipient"@, "nonce"@, "deadline"@, "chainId"@, "signature"@]);
    r
}

/// The outcome when the address was registered before.
pub fn already_registered() -> (r: RegistrationResult)
    ensures
        r.registered,
        !r.auto_registered,
        r.message@ == "Already registered on AWP network."@,
{
    RegistrationResult {
        registered: true,
        auto_registered: false,
        message: text::to_owned_string("Already registered on AWP network."),
    }
}

/// After poll `attempt` (counted from 0), whether registration is settled:
/// confirmed as soon as a poll says so; after the last poll, assumed
/// (the relay accepted it) but reported as pending.
pub open spec fn poll_outcome_spec(attempt: u32, confirmed: bool, r: Option<RegistrationResult>) -> bool {
    if confirmed {
        r matches Some(x) && x.registered && x.auto_registered && x.message@ == "Auto-registered on AWP network (gasless)."@
    } else if attempt == POLL_ATTEMPTS - 1 {
        r matches Some(x) && x.registered && x.auto_registered && x.message@ == "Registration submitted. Confirmation pending."@
    } else {
        r is None
    }
}

/// What a confirmation poll settles; `confirmed` is whether `address.check`
/// answered and said the address is registered.
pub fn poll_outcome(attempt: u32, confirmed: bool) -> (r: Option<RegistrationResult>)
    ensures
        poll_outcome_spec(attempt, confirmed, r),
{
    if confirmed {
        Some(RegistrationResult {
            registered: true,
            auto_registered: true,
            message: text::to_owned_string("Auto-registered on AWP network (gasless)."),
        })
    } else if attempt == POLL_ATTEMPTS - 1 {
        Some(RegistrationResult {
            registered: true,
            auto_registered: true,
            message: text::to_owned_string("Registration submitted. Confirmation pending."),
        })
    } else {
        None
    }
}

/// The outcome when no poll settled registration.
pub fn unconfirmed() -> (r: RegistrationResult)
    ensures
        !r.registered,
        !r.auto_registered,
        r.message@ == "Registration submitted but not yet confirmed."@,
{
    RegistrationResult {
        registered: false,
        auto_registered: false,
        message: text::to_owned_string("Registration submitted but not yet confirmed."),
    }
}

/// Once the relay accepted a registration, polling settles it within
/// `POLL_ATTEMPTS` polls, always as registered.
pub proof fn lemma_polling_settles(confirmed: bool, r: Option<RegistrationResult>)
    requires
        poll_outcome_spec((POLL_ATTEMPTS - 1) as u32, confirmed, r),
    ensures
        r is Some,
        r.unwrap().registered,
        r.unwrap().auto_registered,
{
}


/// The arguments that have the wallet sign the typed data `data` (its JSON
/// text) with the session token `token`.
pub fn sign_typed_data_args(token: &str, data: &str) -> (r: Vec<String>)
    ensures
        r@.map_values(|a: String| a@) == seq!["sign-typed-data"@, "--token"@, token@, "--data"@, data@],
{
    let mut r: Vec<String> = Vec::new();
    r.push(text::to_owned_string("sign-typed-data"));
    r.push(text::to_owned_string("--token"));
    r.push(text::to_owned_string(token));
    r.push(text::to_owned_string("--data"));
    r.push(text::to_owned_string(data));
    assert(r@.map_values(|a: String| a@) =~= seq!["sign-typed-data"@, "--token"@, token@, "--data"@, data@]);
    r
}

/// The error when the wallet refused to sign: its exit code (`unknown`
/// when a signal ended it) and what it printed on stderr, trimmed.
pub open spec fn sign_refused_spec(code: Option<i32>, stderr: Seq<char>) -> Seq<char> {
    "awp-wallet sign-typed-data failed (exit "@ + (match code {
        Some(c) => text::dec_int(c as int),
        None => "unknown"@,
    }) + "): "@ + text::trim(stderr)
}

/// The error when the wallet refused to sign.
pub fn sign_refused(code: Option<i32>, stderr: &str) -> (r: String)
    ensures
        r@ == sign_refused_spec(code, stderr@),
{
    let mut v = text::chars_of("awp-wallet sign-typed-data failed (exit ");
    match code {
        Some(c) => text::push_i64(&mut v, c as i64),
        None => text::push_str(&mut v, "unknown"),
    }
    text::push_str(&mut v, "): ");
    text::push_str(&mut v, text::trim_str(stderr).as_str());
    text::string_of(&v)
}

/// The signature the wallet printed (`signature` of its JSON output), if any.
pub open spec fn typed_signature_spec(stdout: Seq<char>) -> Option<Seq<char>> {
    match json::json_parse(stdout) {
        Some(v) => v.field_str("signature"@),
        None => None,
    }
}

/// The signature the wallet printed, if its output is JSON with one.
pub fn typed_signature(stdout: &str) -> (r: Option<String>)
    ensures
        match typed_signature_spec(stdout@) {
            Some(s) => r is Some && r.unwrap()@ == s,
            None => r is None,
        },
{
    let v = json::parse_json(stdout)?;
    let s = v.field_str_exec("signature")?;
    Some(text::to_owned_string(s))
}

} // verus!
