//! What the account commands (cancel, challenge, orders, result, persona,
//! status, history, chip feed) request, and what they print for each answer
//! of the coordinator.
use vstd::prelude::*;
use crate::json::{self, Json, JsonNumber, keys_of, or_default};
use crate::output::{Internal, Output};
use crate::text::{self, contains, dec_int, dec_nat};

verus! {

/// A failure carrying diagnostics.
fn failure(msg: String, code: &str, category: &str, retryable: bool, suggestion: &str, debug: Json, internal: Internal) -> (r: Output)
    ensures
        r.is_failure(msg@, code@, category@, retryable, suggestion@),
        r.debug_spec() == debug,
        r._internal == internal,
{
    Output::error_with_debug(
        msg,
        text::to_owned_string(code),
        text::to_owned_string(category),
        retryable,
        text::to_owned_string(suggestion),
        debug,
        internal,
    )
}

/// Hints with a next action and a next command, nothing else.
fn hint(next_action: &str, next_command: &str) -> (r: Internal)
    ensures
        r.is_hint(next_action@, Some(next_command@), None),
{
    Internal::hint(next_action, Some(text::to_owned_string(next_command)), None)
}

/// The text member `key` of `v`, or `d`.
fn str_or(v: &Json, key: &str, d: &str) -> (r: String)
    ensures
        r@ == or_default(v.field_str(key@), d@),
{
    match v.field_str_exec(key) {
        Some(s) => text::to_owned_string(s),
        None => text::to_owned_string(d),
    }
}

/// The integer member `key` of `v`, or `d`.
fn i64_or(v: &Json, key: &str, d: i64) -> (r: i64)
    ensures
        r == or_default(v.field_i64(key@), d),
{
    match v.field_i64_exec(key) {
        Some(i) => i,
        None => d,
    }
}

// ---------------------------------------------------------------------------
// cancel
// ---------------------------------------------------------------------------

/// The path that cancels order `order_id`.
pub fn cancel_path(order_id: i64) -> (r: String)
    ensures
        r@ == "/api/v1/orders/"@ + dec_int(order_id as int),
{
    let mut v = text::chars_of("/api/v1/orders/");
    text::push_i64(&mut v, order_id);
    text::string_of(&v)
}

/// The error code and advice for a refused cancellation, read from the
/// error text.
pub open spec fn cancel_error_spec(err: Seq<char>) -> (Seq<char>, Seq<char>) {
    if contains(err, "NOT_FOUND"@) {
        ("ORDER_NOT_FOUND"@, "Check the order ID with 'predict-agent orders'."@)
    } else if contains(err, "FORBIDDEN"@) {
        ("FORBIDDEN"@, "You can only cancel your own orders."@)
    } else if contains(err, "ORDER_NOT_CANCELLABLE"@) {
        ("ORDER_NOT_CANCELLABLE"@, "Only open or partially filled orders can be cancelled."@)
    } else if contains(err, "MARKET_CLOSED"@) {
        ("MARKET_CLOSED"@, "Cannot cancel orders on closed markets. Wait for resolution."@)
    } else {
        ("CANCEL_FAILED"@, "Check the order ID and try again."@)
    }
}

/// The output when the cancellation of `order_id` fails with `err`.
pub fn cancel_failure(order_id: i64, err: &str) -> (r: Output)
    ensures
        r.is_failure("Failed to cancel order: "@ + err@, cancel_error_spec(err@).0, "validation"@, false, cancel_error_spec(err@).1),
        keys_of(r.debug_spec()) == seq!["order_id"@, "error_detail"@],
        r.debug_spec().field_i64("order_id"@) == Some(order_id),
        r.debug_spec().field_str("error_detail"@) == Some(err@),
        r._internal.is_hint("check_orders"@, Some("predict-agent orders --status open"@), None),
{
    let (code, suggestion) = if text::contains_str(err, "NOT_FOUND") {
        ("ORDER_NOT_FOUND", "Check the order ID with 'predict-agent orders'.")
    } else if text::contains_str(err, "FORBIDDEN") {
        ("FORBIDDEN", "You can only cancel your own orders.")
    } else if text::contains_str(err, "ORDER_NOT_CANCELLABLE") {
        ("ORDER_NOT_CANCELLABLE", "Only open or partially filled orders can be cancelled.")
    } else if text::contains_str(err, "MARKET_CLOSED") {
        ("MARKET_CLOSED", "Cannot cancel orders on closed markets. Wait for resolution.")
    } else {
        ("CANCEL_FAILED", "Check the order ID and try again.")
    };
    proof {
        reveal_strlit("order_id");
        reveal_strlit("error_detail");
        assert("order_id"@[0] != "error_detail"@[0]);
    }
    let debug = json::object2("order_id", json::jint(order_id), "error_detail", json::jstr(err));
    failure(
        text::concat2("Failed to cancel order: ", err),
        code,
        "validation",
        false,
        suggestion,
        debug,
        hint("check_orders", "predict-agent orders --status open"),
    )
}

/// The message after a cancellation.
pub open spec fn cancel_message_spec(order_id: i64, tickets: i64, refunded: Seq<char>, balance: Seq<char>) -> Seq<char> {
    "Order "@ + dec_int(order_id as int) + " cancelled. "@ + dec_int(tickets as int) + " tickets cancelled, "@
        + refunded + " chips refunded. New balance: "@ + balance + "."@
}

/// The output after order `order_id` was cancelled: the tickets cancelled,
/// the chips refunded and the new balance, read from the answer's `data`
/// (0 and `"0"` where absent).
pub fn cancel_success(order_id: i64, resp: Json) -> (r: Output)
    ensures
        ({
            let data = json::member_or_null(resp, "data"@);
            let tickets = or_default(data.field_i64("tickets_cancelled"@), 0);
            let refunded = or_default(data.field_str("chips_refunded"@), "0"@);
            let balance = or_default(data.field_str("balance"@), "0"@);
            &&& r.is_success(cancel_message_spec(order_id, tickets, refunded, balance))
            &&& keys_of(r.data_spec()) == seq!["order_id"@, "tickets_cancelled"@, "chips_refunded"@, "balance"@]
            &&& r.data_spec().field_i64("order_id"@) == Some(order_id)
            &&& r.data_spec().field_i64("tickets_cancelled"@) == Some(tickets)
            &&& r.data_spec().field_str("chips_refunded"@) == Some(refunded)
            &&& r.data_spec().field_str("balance"@) == Some(balance)
            &&& r._internal.is_hint("fetch_context"@, Some("predict-agent context"@), None)
        }),
{
    let data = json::member_or_empty(resp, "data");
    proof {
        if resp.get_spec("data"@) is None {
            assert(data.get_spec("tickets_cancelled"@) is None);
            assert(data.get_spec("chips_refunded"@) is None);
            assert(data.get_spec("balance"@) is None);
        }
    }
    let tickets = i64_or(&data, "tickets_cancelled", 0);
    let refunded = str_or(&data, "chips_refunded", "0");
    let balance = str_or(&data, "balance", "0");
    let mut msg = text::chars_of("Order ");
    text::push_i64(&mut msg, order_id);
    text::push_str(&mut msg, " cancelled. ");
    text::push_i64(&mut msg, tickets);
    text::push_str(&mut msg, " tickets cancelled, ");
    text::push_str(&mut msg, refunded.as_str());
    text::push_str(&mut msg, " chips refunded. New balance: ");
    text::push_str(&mut msg, balance.as_str());
    text::push_str(&mut msg, ".");
    proof {
        reveal_strlit("order_id");
        reveal_strlit("tickets_cancelled");
        reveal_strlit("chips_refunded");
        reveal_strlit("balance");
        assert("order_id"@[0] != "tickets_cancelled"@[0] && "order_id"@[0] != "chips_refunded"@[0]);
        assert("order_id"@[0] != "balance"@[0] && "tickets_cancelled"@[0] != "chips_refunded"@[0]);
        assert("tickets_cancelled"@[0] != "balance"@[0] && "chips_refunded"@[0] != "balance"@[0]);
    }
    let out = json::object4(
        "order_id",
        json::jint(order_id),
        "tickets_cancelled",
        json::jint(tickets),
        "chips_refunded",
        json::jstr(refunded.as_str()),
        "balance",
        json::jstr(balance.as_str()),
    );
    Output::success(text::string_of(&msg), out, hint("fetch_context", "predict-agent context"))
}


/// The object `{key: v}`.
fn object1(key: &str, v: Json) -> (r: Json)
    ensures
        keys_of(r) == seq![key@],
        r.get_spec(key@) == Some(v),
{
    proof {
        reveal_with_fuel(json::member_index_from, 2);
    }
    let r = Json::Object(vec![(text::to_owned_string(key), v)]);
    assert(keys_of(r) =~= seq![key@]);
    r
}

// ---------------------------------------------------------------------------
// challenge
// ---------------------------------------------------------------------------

/// The path that asks for a challenge on `market_id`.
pub fn challenge_path(market_id: &str) -> (r: String)
    ensures
        r@ == "/api/v1/challenge?market_id="@ + market_id@,
{
    text::concat2("/api/v1/challenge?market_id=", market_id)
}

/// The output when no challenge could be fetched.
pub fn challenge_failure(market_id: &str, err: &str) -> (r: Output)
    ensures
        r.is_failure("Failed to fetch challenge: "@ + err@, "CHALLENGE_FETCH_FAILED"@, "server"@, true,
            "Verify market_id is open and retry."@),
        keys_of(r.debug_spec()) == seq!["market_id"@, "error"@],
        r.debug_spec().field_str("market_id"@) == Some(market_id@),
        r.debug_spec().field_str("error"@) == Some(err@),
        r._internal.is_hint("retry"@, None, Some(10u64)),
{
    proof {
        reveal_strlit("market_id");
        reveal_strlit("error");
        assert("market_id"@[0] != "error"@[0]);
    }
    let debug = json::object2("market_id", json::jstr(market_id), "error", json::jstr(err));
    failure(
        text::concat2("Failed to fetch challenge: ", err),
        "CHALLENGE_FETCH_FAILED",
        "server",
        true,
        "Verify market_id is open and retry.",
        debug,
        Internal::hint("retry", None, Some(10)),
    )
}

/// The message when a challenge was issued.
pub open spec fn challenge_message_spec(market_id: Seq<char>, expires_in: u64) -> Seq<char> {
    "Challenge issued for "@ + market_id + ". Nonce expires in "@ + dec_nat(expires_in as nat)
        + "s. Read the `prompt` string in `data` \u{2014} your reasoning must satisfy EVERY constraint described there. Pass the nonce back via --challenge-nonce."@
}

/// The submit command that answers a challenge.
pub open spec fn challenge_command_spec(market_id: Seq<char>, nonce: Seq<char>) -> Seq<char> {
    "predict-agent submit --market "@ + market_id
        + " --prediction <up|down> --tickets N --reasoning \"...\" --challenge-nonce "@ + nonce
}

/// The output when a challenge was issued: the challenge itself as data,
/// how long its nonce lives (180 seconds unless the server says), and the
/// submit command carrying the nonce.
pub fn challenge_success(market_id: &str, resp: Json) -> (r: Output)
    ensures
        ({
            let data = json::member_or_null(resp, "data"@);
            let nonce = or_default(data.field_str("nonce"@), Seq::empty());
            let expires_in = or_default(data.field_u64("expires_in"@), 180u64);
            &&& r.is_success(challenge_message_spec(market_id@, expires_in))
            &&& json::member_or_empty_ok(r.data_spec(), resp, "data"@)
            &&& r._internal.is_hint("compose_reasoning_then_submit"@, Some(challenge_command_spec(market_id@, nonce)), None)
        }),
{
    let data = json::member_or_empty(resp, "data");
    let nonce = str_or(&data, "nonce", "");
    let expires_in: u64 = match data.field_u64_exec("expires_in") {
        Some(e) => e,
        None => 180,
    };
    let mut msg = text::chars_of("Challenge issued for ");
    text::push_str(&mut msg, market_id);
    text::push_str(&mut msg, ". Nonce expires in ");
    text::push_u64(&mut msg, expires_in);
    text::push_str(&mut msg, "s. Read the `prompt` string in `data` \u{2014} your reasoning must satisfy EVERY constraint described there. Pass the nonce back via --challenge-nonce.");
    let mut cmd = text::chars_of("predict-agent submit --market ");
    text::push_str(&mut cmd, market_id);
    text::push_str(&mut cmd, " --prediction <up|down> --tickets N --reasoning \"...\" --challenge-nonce ");
    text::push_str(&mut cmd, nonce.as_str());
    proof {
        reveal_strlit("");
    }
    Output::success(
        text::string_of(&msg),
        data,
        Internal::hint("compose_reasoning_then_submit", Some(text::string_of(&cmd)), None),
    )
}

// ---------------------------------------------------------------------------
// admin chip feed
// ---------------------------------------------------------------------------

/// The output when the chip feed could not be triggered.
pub fn chip_feed_failure(err: &str) -> (r: Output)
    ensures
        r.is_failure("Admin chip-feed failed: "@ + err@, "ADMIN_FAILED"@, "auth"@, false,
            "Check ADMIN_ADDRESSES env var on server."@),
        keys_of(r.debug_spec()) == seq!["error"@],
        r.debug_spec().field_str("error"@) == Some(err@),
        r._internal.is_hint(Seq::empty(), None, None),
{
    failure(
        text::concat2("Admin chip-feed failed: ", err),
        "ADMIN_FAILED",
        "auth",
        false,
        "Check ADMIN_ADDRESSES env var on server.",
        object1("error", json::jstr(err)),
        Internal::default(),
    )
}

/// The output after the chip feed: how many agents were topped up (`fed`,
/// 0 when absent), with the server's data.
pub fn chip_feed_success(resp: Json) -> (r: Output)
    ensures
        r.is_success("Chip feed complete. "@
            + dec_int(or_default(json::member_or_null(resp, "data"@).field_i64("fed"@), 0) as int)
            + " agents topped up."@),
        json::member_or_empty_ok(r.data_spec(), resp, "data"@),
        r._internal.is_hint(Seq::empty(), None, None),
{
    let data = json::member_or_empty(resp, "data");
    let fed = i64_or(&data, "fed", 0);
    let mut msg = text::chars_of("Chip feed complete. ");
    text::push_i64(&mut msg, fed);
    text::push_str(&mut msg, " agents topped up.");
    Output::success(text::string_of(&msg), data, Internal::default())
}

// ---------------------------------------------------------------------------
// status
// ---------------------------------------------------------------------------

/// The output when the agent's status could not be fetched: the error as
/// `Display` prints it (`err`) and with its causes (`chain`).
pub fn status_failure(server_url: &str, err: &str, chain: &str) -> (r: Output)
    ensures
        r.is_failure("Failed to fetch status: "@ + err@, "STATUS_FAILED"@, "network"@, true,
            "Check coordinator connectivity."@),
        keys_of(r.debug_spec()) == seq!["server_url"@, "error_detail"@, "error_chain"@],
        r.debug_spec().field_str("server_url"@) == Some(server_url@),
        r.debug_spec().field_str("error_detail"@) == Some(err@),
        r.debug_spec().field_str("error_chain"@) == Some(chain@),
        r._internal.is_hint("retry"@, Some("predict-agent status"@), None),
{
    proof {
        reveal_strlit("server_url");
        reveal_strlit("error_detail");
        reveal_strlit("error_chain");
        assert("server_url"@[0] != "error_detail"@[0] && "server_url"@[0] != "error_chain"@[0]);
        assert("error_detail"@[6] != "error_chain"@[6]);
    }
    let debug = json::object3("server_url", json::jstr(server_url), "error_detail", json::jstr(err),
        "error_chain", json::jstr(chain));
    failure(
        text::concat2("Failed to fetch status: ", err),
        "STATUS_FAILED",
        "network",
        true,
        "Check coordinator connectivity.",
        debug,
        hint("retry", "predict-agent status"),
    )
}

/// The raw chip balance in the agent's status (`"0"` when absent), which
/// the caller rounds for display.
pub fn status_balance(resp: &Json) -> (r: String)
    ensures
        r@ == or_default(json::member_or_null(*resp, "data"@).field_str("balance"@), "0"@),
{
    match resp.get("data") {
        Some(d) => str_or(d, "balance", "0"),
        None => text::to_owned_string("0"),
    }
}

/// The status message.
pub open spec fn status_message_spec(total: i64, balance: Seq<char>, persona: Seq<char>) -> Seq<char> {
    "Agent status: "@ + dec_int(total as int) + " total predictions, "@ + balance + " chips balance, persona: "@
        + persona + "."@
}

/// The output of the agent's status: its prediction count (0 when absent),
/// the balance as the caller rounded it, and its persona (`none` when
/// absent), with the server's data.
pub fn status_success(resp: Json, balance: &str) -> (r: Output)
    ensures
        ({
            let data = json::member_or_null(resp, "data"@);
            &&& r.is_success(status_message_spec(or_default(data.field_i64("total_predictions"@), 0), balance@,
                or_default(data.field_str("persona"@), "none"@)))
            &&& json::member_or_empty_ok(r.data_spec(), resp, "data"@)
            &&& r._internal.is_hint("fetch_context"@, Some("predict-agent context"@), None)
        }),
{
    let data = json::member_or_empty(resp, "data");
    let total = i64_or(&data, "total_predictions", 0);
    let persona = str_or(&data, "persona", "none");
    let mut msg = text::chars_of("Agent status: ");
    text::push_i64(&mut msg, total);
    text::push_str(&mut msg, " total predictions, ");
    text::push_str(&mut msg, balance);
    text::push_str(&mut msg, " chips balance, persona: ");
    text::push_str(&mut msg, persona.as_str());
    text::push_str(&mut msg, ".");
    Output::success(text::string_of(&msg), data, hint("fetch_context", "predict-agent context"))
}

// ---------------------------------------------------------------------------
// history
// ---------------------------------------------------------------------------

/// The path that lists this agent's last `limit` predictions.
pub fn history_path(limit: u32) -> (r: String)
    ensures
        r@ == "/api/v1/predictions/me?limit="@ + dec_nat(limit as nat),
{
    let mut v = text::chars_of("/api/v1/predictions/me?limit=");
    text::push_u64(&mut v, limit as u64);
    text::string_of(&v)
}

/// The output when the history could not be fetched.
pub fn history_failure(server_url: &str, limit: u32, err: &str, chain: &str) -> (r: Output)
    ensures
        r.is_failure("Failed to fetch history: "@ + err@, "HISTORY_FAILED"@, "network"@, true,
            "Check coordinator connectivity."@),
        keys_of(r.debug_spec()) == seq!["server_url"@, "limit"@, "error_detail"@, "error_chain"@],
        r.debug_spec().field_str("server_url"@) == Some(server_url@),
        r.debug_spec().field_u64("limit"@) == Some(limit as u64),
        r.debug_spec().field_str("error_detail"@) == Some(err@),
        r.debug_spec().field_str("error_chain"@) == Some(chain@),
        r._internal.is_hint("retry"@, Some("predict-agent history --limit "@ + dec_nat(limit as nat)), None),
{
    proof {
        reveal_strlit("server_url");
        reveal_strlit("limit");
        reveal_strlit("error_detail");
        reveal_strlit("error_chain");
        assert("server_url"@[0] != "error_detail"@[0] && "server_url"@[0] != "error_chain"@[0]);
        assert("server_url"@[0] != "limit"@[0] && "limit"@[0] != "error_detail"@[0] && "limit"@[0] != "error_chain"@[0]);
        assert("error_detail"@[6] != "error_chain"@[6]);
    }
    let debug = json::object4("server_url", json::jstr(server_url), "limit", json::juint(limit as u64),
        "error_detail", json::jstr(err), "error_chain", json::jstr(chain));
    let mut cmd = text::chars_of("predict-agent history --limit ");
    text::push_u64(&mut cmd, limit as u64);
    failure(
        text::concat2("Failed to fetch history: ", err),
        "HISTORY_FAILED",
        "network",
        true,
        "Check coordinator connectivity.",
        debug,
        Internal::hint("retry", Some(text::string_of(&cmd)), None),
    )
}


// ---------------------------------------------------------------------------
// set-persona
// ---------------------------------------------------------------------------

/// The body that sets the persona.
pub fn persona_body(persona: &str) -> (r: Json)
    ensures
        keys_of(r) == seq!["persona"@],
        r.field_str("persona"@) == Some(persona@),
{
    object1("persona", json::jstr(persona))
}

/// A refusal because the persona was changed less than a week ago.
pub open spec fn persona_cooldown(err: Seq<char>) -> bool {
    contains(err, "PERSONA_COOLDOWN"@) || contains(err, "cooldown"@)
}

/// The readable part of a refusal: `error.message` of the JSON that starts
/// at the first `{`, else the whole text.
pub open spec fn persona_error_message(err: Seq<char>) -> Seq<char> {
    match text::from_first(err, '{') {
        Some(t) => match crate::prediction::error_message_in(t) {
            Some(m) => m,
            None => err,
        },
        None => err,
    }
}

fn persona_error_message_exec(err: &str) -> (r: String)
    ensures
        r@ == persona_error_message(err@),
{
    if let Some(tail) = text::from_first_char(err, '{') {
        if let Some(m) = crate::prediction::error_message_exec(tail.as_str()) {
            return m;
        }
    }
    text::to_owned_string(err)
}

/// The output when the persona could not be set: a cooldown refusal is not
/// worth retrying; anything else is.
pub fn persona_failure(persona: &str, err: &str, server_url: &str) -> (r: Output)
    ensures
        r.is_failure(
            "Failed to set persona: "@ + persona_error_message(err@),
            if persona_cooldown(err@) { "PERSONA_COOLDOWN"@ } else { "SET_PERSONA_FAILED"@ },
            if persona_cooldown(err@) { "validation"@ } else { "network"@ },
            !persona_cooldown(err@),
            if persona_cooldown(err@) {
                "Persona can only be changed once every 7 days."@
            } else {
                "Check coordinator connectivity and retry."@
            },
        ),
        keys_of(r.debug_spec()) == seq!["persona"@, "raw_error"@, "server_url"@],
        r.debug_spec().field_str("persona"@) == Some(persona@),
        r.debug_spec().field_str("raw_error"@) == Some(err@),
        r.debug_spec().field_str("server_url"@) == Some(server_url@),
        r._internal.is_hint("fetch_context"@, Some("predict-agent context"@), None),
{
    let cooldown = text::contains_str(err, "PERSONA_COOLDOWN") || text::contains_str(err, "cooldown");
    let (retryable, suggestion, code) = if cooldown {
        (false, "Persona can only be changed once every 7 days.", "PERSONA_COOLDOWN")
    } else {
        (true, "Check coordinator connectivity and retry.", "SET_PERSONA_FAILED")
    };
    proof {
        reveal_strlit("persona");
        reveal_strlit("raw_error");
        reveal_strlit("server_url");
        assert("persona"@[0] != "raw_error"@[0] && "persona"@[0] != "server_url"@[0] && "raw_error"@[0] != "server_url"@[0]);
    }
    let debug = json::object3("persona", json::jstr(persona), "raw_error", json::jstr(err), "server_url",
        json::jstr(server_url));
    failure(
        text::concat2("Failed to set persona: ", persona_error_message_exec(err).as_str()),
        code,
        if retryable { "network" } else { "validation" },
        retryable,
        suggestion,
        debug,
        hint("fetch_context", "predict-agent context"),
    )
}

/// The output after the persona was set, with the server's data.
pub fn persona_success(persona: &str, resp: Json) -> (r: Output)
    ensures
        r.is_success("Persona updated to '"@ + persona@ + "'. 7-day cooldown started."@),
        json::member_or_empty_ok(r.data_spec(), resp, "data"@),
        r._internal.is_hint("fetch_context"@, Some("predict-agent context"@), None),
{
    let data = json::member_or_empty(resp, "data");
    Output::success(
        text::concat3("Persona updated to '", persona, "'. 7-day cooldown started."),
        data,
        hint("fetch_context", "predict-agent context"),
    )
}


// ---------------------------------------------------------------------------
// result
// ---------------------------------------------------------------------------

/// The path of market `market_id`.
pub fn market_path(market_id: &str) -> (r: String)
    ensures
        r@ == "/api/v1/markets/"@ + market_id@,
{
    text::concat2("/api/v1/markets/", market_id)
}

/// The output when market `market_id` could not be fetched.
pub fn result_failure(market_id: &str, server_url: &str, err: &str) -> (r: Output)
    ensures
        r.is_failure("Market "@ + market_id@ + " not found: "@ + err@, "MARKET_NOT_FOUND"@, "validation"@, false,
            "Check market ID. Use: predict-agent history"@),
        keys_of(r.debug_spec()) == seq!["market_id"@, "server_url"@, "error_detail"@],
        r.debug_spec().field_str("market_id"@) == Some(market_id@),
        r.debug_spec().field_str("server_url"@) == Some(server_url@),
        r.debug_spec().field_str("error_detail"@) == Some(err@),
        r._internal.is_hint("fetch_context"@, Some("predict-agent context"@), None),
{
    proof {
        reveal_strlit("market_id");
        reveal_strlit("server_url");
        reveal_strlit("error_detail");
        assert("market_id"@[0] != "server_url"@[0] && "market_id"@[0] != "error_detail"@[0] && "server_url"@[0] != "error_detail"@[0]);
    }
    let debug = json::object3("market_id", json::jstr(market_id), "server_url", json::jstr(server_url),
        "error_detail", json::jstr(err));
    let mut msg = text::chars_of("Market ");
    text::push_str(&mut msg, market_id);
    text::push_str(&mut msg, " not found: ");
    text::push_str(&mut msg, err);
    failure(
        text::string_of(&msg),
        "MARKET_NOT_FOUND",
        "validation",
        false,
        "Check market ID. Use: predict-agent history",
        debug,
        hint("fetch_context", "predict-agent context"),
    )
}

/// The output while market `market` (the `data` of its answer) is not
/// resolved yet: its status and closing time, and a hint to ask again in a
/// minute.  `None` once it is resolved.
pub fn pending_result(market_id: &str, market: &Json) -> (r: Option<Output>)
    ensures
        ({
            let status = or_default(market.field_str("status"@), ""@);
            let closes = or_default(market.field_str("close_at"@), "?"@);
            &&& (r is None <==> status == "resolved"@)
            &&& r is Some ==> {
                let o = r.unwrap();
                &&& o.is_success("Market "@ + market_id@ + " is still "@ + status
                    + ". Check back after it resolves (closes at "@ + closes + ")."@)
                &&& keys_of(o.data_spec()) == seq!["market_id"@, "status"@, "close_at"@, "outcome"@]
                &&& o.data_spec().field_str("market_id"@) == Some(market_id@)
                &&& o.data_spec().field_str("status"@) == Some(status)
                &&& o.data_spec().field_str("close_at"@) == Some(closes)
                &&& o.data_spec().get_spec("outcome"@) == Some(Json::Null)
                &&& o._internal.is_hint("wait"@, Some("predict-agent result --market "@ + market_id@), Some(60u64))
            }
        }),
{
    proof {
        reveal_strlit("");
    }
    let status = str_or(market, "status", "");
    if json::eq_str(status.as_str(), "resolved") {
        return None;
    }
    let closes = str_or(market, "close_at", "?");
    let mut msg = text::chars_of("Market ");
    text::push_str(&mut msg, market_id);
    text::push_str(&mut msg, " is still ");
    text::push_str(&mut msg, status.as_str());
    text::push_str(&mut msg, ". Check back after it resolves (closes at ");
    text::push_str(&mut msg, closes.as_str());
    text::push_str(&mut msg, ").");
    proof {
        reveal_strlit("market_id");
        reveal_strlit("status");
        reveal_strlit("close_at");
        reveal_strlit("outcome");
        assert("market_id"@[0] != "status"@[0] && "market_id"@[0] != "close_at"@[0] && "market_id"@[0] != "outcome"@[0]);
        assert("status"@[0] != "close_at"@[0] && "status"@[0] != "outcome"@[0] && "close_at"@[0] != "outcome"@[0]);
    }
    let data = json::object4("market_id", json::jstr(market_id), "status", json::jstr(status.as_str()),
        "close_at", json::jstr(closes.as_str()), "outcome", Json::Null);
    Some(Output::success(
        text::string_of(&msg),
        data,
        Internal::hint("wait", Some(text::concat2("predict-agent result --market ", market_id)), Some(60)),
    ))
}

/// The first prediction in `preds` made on market `market_id`.
pub open spec fn prediction_on(preds: Seq<Json>, market_id: Seq<char>, k: int) -> Option<int>
    decreases preds.len() - k,
{
    if k < 0 || k >= preds.len() {
        None
    } else if preds[k].field_str("market_id"@) == Some(market_id) {
        Some(k)
    } else {
        prediction_on(preds, market_id, k + 1)
    }
}

fn find_prediction(preds: &Vec<Json>, market_id: &str) -> (r: Option<usize>)
    ensures
        match prediction_on(preds@, market_id@, 0) {
            Some(k) => r is Some && r.unwrap() as int == k,
            None => r is None,
        },
        r is Some ==> r.unwrap() < preds@.len(),
{
    let mut k: usize = 0;
    while k < preds.len()
        invariant
            k <= preds@.len(),
            prediction_on(preds@, market_id@, 0) == prediction_on(preds@, market_id@, k as int),
        decreases preds@.len() - k,
    {
        let hit = match preds[k].field_str_exec("market_id") {
            Some(m) => json::eq_str(m, market_id),
            None => false,
        };
        if hit {
            return Some(k);
        }
        k = k + 1;
    }
    None
}

/// The message on a resolved market.
pub open spec fn resolved_message_spec(market_id: Seq<char>, outcome: Seq<char>, pred: Option<Json>) -> Seq<char> {
    let head = "Market "@ + market_id + " resolved "@ + text::uppercase(outcome) + "."@;
    match pred {
        None => head + " You did not submit a prediction for this market."@,
        Some(p) => {
            let direction = or_default(p.field_str("direction"@), "?"@);
            let filled = or_default(p.field_i64("tickets_filled"@), 0);
            if direction == outcome {
                head + " You predicted "@ + text::uppercase(direction) + " \u{2014} CORRECT! Payout: "@
                    + or_default(p.field_str("payout_chips"@), "0"@) + " chips ("@ + dec_int(filled as int)
                    + " tickets filled)."@
            } else {
                head + " You predicted "@ + text::uppercase(direction) + " \u{2014} WRONG. No payout ("@
                    + dec_int(filled as int) + " tickets filled)."@
            }
        },
    }
}

/// The data on a resolved market: the outcome, the prices, and this agent's
/// prediction with whether it was right (both `null` without one).
pub open spec fn resolved_data_ok(d: Json, market_id: Seq<char>, market: Json, pred: Option<Json>) -> bool {
    let outcome = or_default(market.field_str("outcome"@), "?"@);
    &&& d.field_str("market_id"@) == Some(market_id)
    &&& d.field_str("outcome"@) == Some(outcome)
    &&& d.field_str("open_price"@) == Some(or_default(market.field_str("open_price"@), "?"@))
    &&& d.field_str("resolve_price"@) == Some(or_default(market.field_str("resolve_price"@), "?"@))
    &&& match pred {
        None => {
            &&& keys_of(d) == seq!["market_id"@, "outcome"@, "open_price"@, "resolve_price"@, "your_prediction"@, "correct"@]
            &&& d.get_spec("your_prediction"@) == Some(Json::Null)
            &&& d.get_spec("correct"@) == Some(Json::Null)
        },
        Some(p) => {
            let direction = or_default(p.field_str("direction"@), "?"@);
            &&& keys_of(d) == seq!["market_id"@, "outcome"@, "open_price"@, "resolve_price"@, "your_prediction"@,
                "correct"@, "tickets_filled"@, "payout_received"@]
            &&& d.field_str("your_prediction"@) == Some(direction)
            &&& d.field_bool("correct"@) == Some(direction == outcome)
            &&& d.field_i64("tickets_filled"@) == Some(or_default(p.field_i64("tickets_filled"@), 0))
            &&& d.field_str("payout_received"@) == Some(or_default(p.field_str("payout_chips"@), "0"@))
        },
    }
}

/// This agent's prediction on `market_id` among `preds`, if any.
pub open spec fn own_prediction(preds: Seq<Json>, market_id: Seq<char>) -> Option<Json> {
    match prediction_on(preds, market_id, 0) {
        Some(k) => Some(preds[k]),
        None => None,
    }
}

/// The output on the resolved market `market` (the `data` of its answer),
/// given this agent's recent predictions `preds`.
pub fn resolved_result(market_id: &str, market: &Json, preds: &Vec<Json>) -> (r: Output)
    ensures
        r.is_success(resolved_message_spec(market_id@, or_default(market.field_str("outcome"@), "?"@),
            own_prediction(preds@, market_id@))),
        resolved_data_ok(r.data_spec(), market_id@, *market, own_prediction(preds@, market_id@)),
        r._internal.is_hint("fetch_context"@, Some("predict-agent context"@), None),
{
    let outcome = str_or(market, "outcome", "?");
    let open_price = str_or(market, "open_price", "?");
    let resolve_price = str_or(market, "resolve_price", "?");
    let outcome_up = text::to_uppercase(outcome.as_str());
    let mut msg = text::chars_of("Market ");
    text::push_str(&mut msg, market_id);
    text::push_str(&mut msg, " resolved ");
    text::push_str(&mut msg, outcome_up.as_str());
    text::push_str(&mut msg, ".");
    let mut members: Vec<(String, Json)> = Vec::new();
    members.push((text::to_owned_string("market_id"), json::jstr(market_id)));
    members.push((text::to_owned_string("outcome"), json::jstr(outcome.as_str())));
    members.push((text::to_owned_string("open_price"), json::jstr(open_price.as_str())));
    members.push((text::to_owned_string("resolve_price"), json::jstr(resolve_price.as_str())));
    let ghost ks: Seq<Seq<char>>;
    match find_prediction(preds, market_id) {
        None => {
            text::push_str(&mut msg, " You did not submit a prediction for this market.");
            members.push((text::to_owned_string("your_prediction"), Json::Null));
            members.push((text::to_owned_string("correct"), Json::Null));
            assert(own_prediction(preds@, market_id@) is None);
            assert(msg@ =~= resolved_message_spec(market_id@, outcome@, None));
            proof {
                ks = seq!["market_id"@, "outcome"@, "open_price"@, "resolve_price"@, "your_prediction"@, "correct"@];
            }
        },
        Some(k) => {
            let p = &preds[k];
            let direction = str_or(p, "direction", "?");
            let correct = json::eq_str(direction.as_str(), outcome.as_str());
            let payout = str_or(p, "payout_chips", "0");
            let filled = i64_or(p, "tickets_filled", 0);
            let direction_up = text::to_uppercase(direction.as_str());
            text::push_str(&mut msg, " You predicted ");
            text::push_str(&mut msg, direction_up.as_str());
            if correct {
                text::push_str(&mut msg, " \u{2014} CORRECT! Payout: ");
                text::push_str(&mut msg, payout.as_str());
                text::push_str(&mut msg, " chips (");
            } else {
                text::push_str(&mut msg, " \u{2014} WRONG. No payout (");
            }
            text::push_i64(&mut msg, filled);
            text::push_str(&mut msg, " tickets filled).");
            assert(own_prediction(preds@, market_id@) == Some(*p));
            assert(msg@ =~= resolved_message_spec(market_id@, outcome@, Some(*p)));
            members.push((text::to_owned_string("your_prediction"), json::jstr(direction.as_str())));
            members.push((text::to_owned_string("correct"), Json::Bool(correct)));
            members.push((text::to_owned_string("tickets_filled"), json::jint(filled)));
            members.push((text::to_owned_string("payout_received"), json::jstr(payout.as_str())));
            proof {
                ks = seq!["market_id"@, "outcome"@, "open_price"@, "resolve_price"@, "your_prediction"@, "correct"@,
                    "tickets_filled"@, "payout_received"@];
            }
        },
    }
    proof {
        reveal_strlit("market_id");
        reveal_strlit("outcome");
        reveal_strlit("open_price");
        reveal_strlit("resolve_price");
        reveal_strlit("your_prediction");
        reveal_strlit("correct");
        reveal_strlit("tickets_filled");
        reveal_strlit("payout_received");
        assert(keys_of(Json::Object(members)) =~= ks);
        assert("outcome"@[1] != "open_price"@[1]);
        assert forall|a: int, b: int| 0 <= a < b < members@.len() implies (#[trigger] members@[a]).0@ != (#[trigger] members@[b]).0@ by {
            assert(members@[a].0@ == ks[a] && members@[b].0@ == ks[b]);
            if !(a == 1 && b == 2) {
                assert(ks[a][0] != ks[b][0]);
            }
        }
        json::lemma_object_lookup(members);
        assert(members@[0].0@ == "market_id"@);
        assert(members@[1].0@ == "outcome"@);
        assert(members@[2].0@ == "open_price"@);
        assert(members@[3].0@ == "resolve_price"@);
        assert(members@[4].0@ == "your_prediction"@);
        assert(members@[5].0@ == "correct"@);
        if members@.len() == 8 {
            assert(members@[6].0@ == "tickets_filled"@);
            assert(members@[7].0@ == "payout_received"@);
        }
    }
    Output::success(text::string_of(&msg), Json::Object(members), hint("fetch_context", "predict-agent context"))
}


// ---------------------------------------------------------------------------
// orders
// ---------------------------------------------------------------------------

/// The path that lists this agent's orders.
pub fn orders_path(limit: u32, status: &str, market: Option<&str>) -> (r: String)
    ensures
        r@ == "/api/v1/orders/me?limit="@ + dec_nat(limit as nat) + "&status="@ + status@ + match market {
            Some(m) => "&market_id="@ + m@,
            None => Seq::empty(),
        },
{
    let mut v = text::chars_of("/api/v1/orders/me?limit=");
    text::push_u64(&mut v, limit as u64);
    text::push_str(&mut v, "&status=");
    text::push_str(&mut v, status);
    if let Some(m) = market {
        text::push_str(&mut v, "&market_id=");
        text::push_str(&mut v, m);
    }
    text::string_of(&v)
}

/// The output when the orders could not be fetched.
pub fn orders_failure(server_url: &str, err: &str) -> (r: Output)
    ensures
        r.is_failure("Failed to fetch orders: "@ + err@, "ORDERS_FAILED"@, "network"@, true,
            "Check coordinator connectivity."@),
        keys_of(r.debug_spec()) == seq!["server_url"@, "error_detail"@],
        r.debug_spec().field_str("server_url"@) == Some(server_url@),
        r.debug_spec().field_str("error_detail"@) == Some(err@),
        r._internal.is_hint("retry"@, Some("predict-agent orders"@), None),
{
    proof {
        reveal_strlit("server_url");
        reveal_strlit("error_detail");
        assert("server_url"@[0] != "error_detail"@[0]);
    }
    let debug = json::object2("server_url", json::jstr(server_url), "error_detail", json::jstr(err));
    failure(
        text::concat2("Failed to fetch orders: ", err),
        "ORDERS_FAILED",
        "network",
        true,
        "Check coordinator connectivity.",
        debug,
        hint("retry", "predict-agent orders"),
    )
}

/// The members of an order shown as the server sent them (`null` where
/// absent).
pub open spec fn order_copied_keys() -> Seq<Seq<char>> {
    seq!["id"@, "market_id"@, "asset"@, "window"@, "direction"@, "limit_price"@, "chips_locked"@, "chips_used"@,
        "pnl"@, "market_status"@, "close_at"@, "created_at"@]
}

/// The members of an order derived for display.
pub open spec fn order_derived_keys() -> Seq<Seq<char>> {
    seq!["tickets"@, "tickets_filled"@, "tickets_pending"@, "fill_ratio"@, "status"@, "can_cancel"@]
}

/// `f` shows the order `o`: its ticket counts (0 where absent), the fill
/// ratio `filled/tickets`, its status (`unknown` where absent), whether it
/// can be cancelled (no where absent), and the copied members.
pub open spec fn order_view_ok(f: Json, o: Json) -> bool {
    let tickets = or_default(o.field_i64("tickets"@), 0);
    let filled = or_default(o.field_i64("tickets_filled"@), 0);
    &&& keys_of(f) == order_derived_keys() + order_copied_keys()
    &&& f.field_i64("tickets"@) == Some(tickets)
    &&& f.field_i64("tickets_filled"@) == Some(filled)
    &&& f.field_i64("tickets_pending"@) == Some(or_default(o.field_i64("tickets_pending"@), 0))
    &&& f.field_str("fill_ratio"@) == Some(dec_int(filled as int) + "/"@ + dec_int(tickets as int))
    &&& f.field_str("status"@) == Some(or_default(o.field_str("status"@), "unknown"@))
    &&& f.field_bool("can_cancel"@) == Some(or_default(o.field_bool("can_cancel"@), false))
    &&& forall|j: int| 0 <= j < order_copied_keys().len()
        ==> f.get_spec(#[trigger] order_copied_keys()[j]) == Some(json::member_or_null(o, order_copied_keys()[j]))
}

/// A shown order can be cancelled exactly when the server's order says so,
/// whatever its status or fill; an order without `can_cancel` shows false.
pub proof fn lemma_can_cancel_as_server_says(f: Json, o: Json)
    requires
        order_view_ok(f, o),
    ensures
        o.field_bool("can_cancel"@) matches Some(b) ==> f.field_bool("can_cancel"@) == Some(b),
        o.field_bool("can_cancel"@) is None ==> f.field_bool("can_cancel"@) == Some(false),
{
}

proof fn lemma_order_keys_distinct()
    ensures
        forall|a: int, b: int| 0 <= a < b < 18 ==> (#[trigger] (order_derived_keys() + order_copied_keys())[a])
            != (#[trigger] (order_derived_keys() + order_copied_keys())[b]),
        forall|a: int, b: int| 0 <= a < b < 12 ==> (#[trigger] order_copied_keys()[a]) != (#[trigger] order_copied_keys()[b]),
{
    reveal_strlit("id");
    reveal_strlit("market_id");
    reveal_strlit("asset");
    reveal_strlit("window");
    reveal_strlit("direction");
    reveal_strlit("limit_price");
    reveal_strlit("chips_locked");
    reveal_strlit("chips_used");
    reveal_strlit("pnl");
    reveal_strlit("market_status");
    reveal_strlit("close_at");
    reveal_strlit("created_at");
    reveal_strlit("tickets");
    reveal_strlit("tickets_filled");
    reveal_strlit("tickets_pending");
    reveal_strlit("fill_ratio");
    reveal_strlit("status");
    reveal_strlit("can_cancel");
    let ks = order_derived_keys() + order_copied_keys();
    assert(ks.len() == 18);
    assert forall|a: int, b: int| 0 <= a < b < 18 implies (#[trigger] ks[a]) != (#[trigger] ks[b]) by {
        if ks[a].len() == ks[b].len() && ks[a][0] == ks[b][0] && ks[a][1] == ks[b][1] {
            if ks[a][6] == ks[b][6] {
                assert(ks[a][7] != ks[b][7]);
            }
        }
    }
    let cs = order_copied_keys();
    assert forall|a: int, b: int| 0 <= a < b < 12 implies (#[trigger] cs[a]) != (#[trigger] cs[b]) by {
        assert(cs[a] == ks[a + 6] && cs[b] == ks[b + 6]);
    }
}

/// The order `o` as shown.
pub fn format_order(o: Json) -> (r: Json)
    ensures
        order_view_ok(r, o),
{
    let ghost o0 = o;
    let tickets = i64_or(&o, "tickets", 0);
    let filled = i64_or(&o, "tickets_filled", 0);
    let pending = i64_or(&o, "tickets_pending", 0);
    let status = str_or(&o, "status", "unknown");
    let can_cancel = match o.field_bool_exec("can_cancel") {
        Some(b) => b,
        None => false,
    };
    let mut ratio = Vec::new();
    text::push_i64(&mut ratio, filled);
    text::push_str(&mut ratio, "/");
    text::push_i64(&mut ratio, tickets);
    let mut members: Vec<(String, Json)> = Vec::new();
    members.push((text::to_owned_string("tickets"), json::jint(tickets)));
    members.push((text::to_owned_string("tickets_filled"), json::jint(filled)));
    members.push((text::to_owned_string("tickets_pending"), json::jint(pending)));
    members.push((text::to_owned_string("fill_ratio"), Json::Str(text::string_of(&ratio))));
    members.push((text::to_owned_string("status"), json::jstr(status.as_str())));
    members.push((text::to_owned_string("can_cancel"), Json::Bool(can_cancel)));
    let keys: Vec<&str> = vec!["id", "market_id", "asset", "window", "direction", "limit_price", "chips_locked",
        "chips_used", "pnl", "market_status", "close_at", "created_at"];
    proof {
        lemma_order_keys_distinct();
        assert(keys@.map_values(|k: &str| k@) =~= order_copied_keys());
        assert forall|a: int, b: int| 0 <= a < b < keys@.len() implies (#[trigger] keys@[a])@ != (#[trigger] keys@[b])@ by {
            assert(keys@[a]@ == order_copied_keys()[a] && keys@[b]@ == order_copied_keys()[b]);
        }
    }
    let mut o = o;
    let mut copied = json::take_members(&mut o, keys.as_slice());
    let ghost copied0 = copied@;
    members.append(&mut copied);
    proof {
        let ks = order_derived_keys() + order_copied_keys();
        assert forall|j: int| 0 <= j < 18 implies (#[trigger] members@[j]).0@ == ks[j] by {
            if j >= 6 {
                assert(members@[j] == copied0[j - 6]);
                assert(keys@[j - 6]@ == order_copied_keys()[j - 6]);
            }
        }
        assert(json::distinct_keys(members@)) by {
            assert forall|a: int, b: int| 0 <= a < b < members@.len() implies (#[trigger] members@[a]).0@ != (#[trigger] members@[b]).0@ by {
                assert(members@[a].0@ == ks[a] && members@[b].0@ == ks[b]);
            }
        }
        json::lemma_object_lookup(members);
        assert(keys_of(Json::Object(members)) =~= ks) by {
            assert forall|j: int| 0 <= j < 18 implies keys_of(Json::Object(members))[j] == ks[j] by {
                assert(members@[j].0@ == ks[j]);
            }
        }
        assert forall|j: int| 0 <= j < order_copied_keys().len() implies Json::Object(members).get_spec(#[trigger] order_copied_keys()[j])
            == Some(json::member_or_null(o0, order_copied_keys()[j])) by {
            assert(members@[j + 6] == copied0[j]);
            assert(members@[j + 6].0@ == ks[j + 6]);
            assert(ks[j + 6] == order_copied_keys()[j]);
            assert(keys@[j]@ == order_copied_keys()[j]);
        }
        assert(members@[0].0@ == "tickets"@);
        assert(members@[1].0@ == "tickets_filled"@);
        assert(members@[2].0@ == "tickets_pending"@);
        assert(members@[3].0@ == "fill_ratio"@);
        assert(members@[4].0@ == "status"@);
        assert(members@[5].0@ == "can_cancel"@);
    }
    Json::Object(members)
}


/// The orders listed in an answer: `data.orders` when it is an array.
pub open spec fn listed_orders(resp: Json) -> Seq<Json> {
    match json::member_or_null(resp, "data"@).get_spec("orders"@) {
        Some(Json::Array(a)) => a@,
        _ => Seq::empty(),
    }
}

/// The summary in an answer: `data.summary`, or `null` when absent.
pub open spec fn orders_summary(resp: Json) -> Json {
    json::member_or_null(json::member_or_null(resp, "data"@), "summary"@)
}

/// The message listing the orders.
pub open spec fn orders_message_spec(n: nat, open: i64, pending: i64) -> Seq<char> {
    if open > 0 {
        dec_nat(n) + " orders found. "@ + dec_int(open as int) + " open with "@ + dec_int(pending as int)
            + " pending tickets. Use 'predict-agent cancel --order <id>' to cancel."@
    } else {
        dec_nat(n) + " orders found. No open orders to cancel."@
    }
}

/// Each order of `os` as shown, in order.
pub fn format_orders(os: Vec<Json>) -> (r: Vec<Json>)
    ensures
        r@.len() == os@.len(),
        forall|i: int| 0 <= i < os@.len() ==> order_view_ok(#[trigger] r@[i], os@[i]),
{
    let ghost os0 = os@;
    let mut os = os;
    let mut out: Vec<Json> = Vec::new();
    let mut i: usize = 0;
    while i < os.len()
        invariant
            i <= os@.len(),
            os@.len() == os0.len(),
            forall|j: int| i <= j < os@.len() ==> os@[j] == os0[j],
            out@.len() == i,
            forall|j: int| 0 <= j < i ==> order_view_ok(#[trigger] out@[j], os0[j]),
        decreases os@.len() - i,
    {
        let mut o = Json::Null;
        std::mem::swap(&mut o, &mut os[i]);
        assert(o == os0[i as int]);
        out.push(format_order(o));
        i = i + 1;
    }
    out
}

/// The output listing this agent's orders: each shown with its fill ratio,
/// the server's summary, and a hint to review or cancel when some are open.
pub fn orders_success(resp: Json) -> (r: Output)
    ensures
        ({
            let os = listed_orders(resp);
            let summary = orders_summary(resp);
            let open = or_default(summary.field_i64("open"@), 0);
            let pending = or_default(summary.field_i64("total_pending_tickets"@), 0);
            &&& r.is_success(orders_message_spec(os.len(), open, pending))
            &&& keys_of(r.data_spec()) == seq!["orders"@, "summary"@]
            &&& r.data_spec().get_spec("orders"@) is Some
            &&& r.data_spec().get_spec("orders"@).unwrap().array_spec() is Some
            &&& r.data_spec().get_spec("orders"@).unwrap().array_spec().unwrap().len() == os.len()
            &&& forall|i: int| 0 <= i < os.len() ==> order_view_ok(
                #[trigger] r.data_spec().get_spec("orders"@).unwrap().array_spec().unwrap()[i], os[i])
            &&& r.data_spec().get_spec("summary"@) is Some
            &&& match json::member_or_null(resp, "data"@).get_spec("summary"@) {
                Some(s) => r.data_spec().get_spec("summary"@) == Some(s),
                None => json::is_empty_object(r.data_spec().get_spec("summary"@).unwrap()),
            }
            &&& r._internal.is_hint(if open > 0 { "review_or_cancel"@ } else { "fetch_context"@ },
                Some("predict-agent context"@), None)
        }),
{
    let ghost resp0 = resp;
    let mut data = json::member_or_empty(resp, "data");
    let ghost data0 = data;
    proof {
        reveal_strlit("orders");
        reveal_strlit("summary");
        assert("orders"@[0] != "summary"@[0]);
        if resp0.get_spec("data"@) is None {
            assert(data0.get_spec("orders"@) is None && data0.get_spec("summary"@) is None);
        }
    }
    let orders = match json::take_member(&mut data, "orders") {
        Some(Json::Array(a)) => a,
        _ => Vec::new(),
    };
    let summary = match json::take_member(&mut data, "summary") {
        Some(s) => s,
        None => json::empty_object(),
    };
    let open = i64_or(&summary, "open", 0);
    let pending = i64_or(&summary, "total_pending_tickets", 0);
    let n = orders.len();
    let formatted = format_orders(orders);
    let mut msg: Vec<char> = Vec::new();
    text::push_u64(&mut msg, n as u64);
    if open > 0 {
        text::push_str(&mut msg, " orders found. ");
        text::push_i64(&mut msg, open);
        text::push_str(&mut msg, " open with ");
        text::push_i64(&mut msg, pending);
        text::push_str(&mut msg, " pending tickets. Use 'predict-agent cancel --order <id>' to cancel.");
    } else {
        text::push_str(&mut msg, " orders found. No open orders to cancel.");
    }
    let out = json::object2("orders", Json::Array(formatted), "summary", summary);
    Output::success(
        text::string_of(&msg),
        out,
        hint(if open > 0 { "review_or_cancel" } else { "fetch_context" }, "predict-agent context"),
    )
}


/// The output listing this agent's recent predictions, with how many were
/// correct; the accuracy (a fraction rounded to two decimals) and its
/// percentage (one decimal) come as the texts the caller computed.
pub fn history_success(preds: Vec<Json>, correct: u64, accuracy: &str, percent: &str) -> (r: Output)
    ensures
        r.is_success("Last "@ + dec_nat(preds@.len()) + " predictions. "@ + dec_nat(correct as nat) + " correct ("@
            + percent@ + "% accuracy)."@),
        keys_of(r.data_spec()) == seq!["predictions"@, "summary"@],
        r.data_spec().get_spec("predictions"@) == Some(Json::Array(preds)),
        keys_of(r.data_spec().get_spec("summary"@).unwrap()) == seq!["count"@, "correct"@, "accuracy"@],
        r.data_spec().get_spec("summary"@).unwrap().field_u64("count"@) == Some(preds@.len() as u64),
        r.data_spec().get_spec("summary"@).unwrap().field_u64("correct"@) == Some(correct),
        crate::prediction::number_text(r.data_spec().get_spec("summary"@).unwrap().get_spec("accuracy"@).unwrap(), accuracy@),
        r._internal.is_hint("fetch_context"@, Some("predict-agent context"@), None),
{
    let n = preds.len();
    let mut msg = text::chars_of("Last ");
    text::push_u64(&mut msg, n as u64);
    text::push_str(&mut msg, " predictions. ");
    text::push_u64(&mut msg, correct);
    text::push_str(&mut msg, " correct (");
    text::push_str(&mut msg, percent);
    text::push_str(&mut msg, "% accuracy).");
    proof {
        reveal_strlit("count");
        reveal_strlit("correct");
        reveal_strlit("accuracy");
        reveal_strlit("predictions");
        reveal_strlit("summary");
        assert("count"@[2] != "correct"@[2] && "count"@[0] != "accuracy"@[0] && "correct"@[0] != "accuracy"@[0]);
        assert("predictions"@[0] != "summary"@[0]);
    }
    let summary = json::object3(
        "count",
        json::juint(n as u64),
        "correct",
        json::juint(correct),
        "accuracy",
        Json::Number(JsonNumber::Float(text::to_owned_string(accuracy))),
    );
    let data = json::object2("predictions", Json::Array(preds), "summary", summary);
    Output::success(text::string_of(&msg), data, hint("fetch_context", "predict-agent context"))
}

} // verus!
