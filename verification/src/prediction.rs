//! Submitting a prediction: checking the request, the canonical text that
//! the signature covers, the request body, and reading the server's answer.
use vstd::prelude::*;
use crate::crypto;
use crate::json::{self, Json, JsonNumber, keys_of};
use crate::output::{Internal, Output, opt_text};
use crate::text::{self, dec_nat, dec_int};

verus! {

/// A limit price given on the command line.
#[derive(Debug, PartialEq)]
pub struct LimitPrice {
    /// The price as `Display` prints it.
    pub text: String,
    /// Whether the price lies within 0.01..=0.99 (a floating-point
    /// comparison made by the caller).
    pub in_range: bool,
}

/// A prediction to submit.
#[derive(Debug, PartialEq)]
pub struct SubmitArgs {
    pub market: String,
    /// `up` or `down`.
    pub prediction: String,
    pub tickets: u32,
    pub reasoning: String,
    pub limit_price: Option<LimitPrice>,
    /// Only show what would be submitted.
    pub dry_run: bool,
}

/// The fewest tickets an order may carry.
pub const MIN_TICKETS: u32 = 1;

// ---------------------------------------------------------------------------
// Canonical text and body
// ---------------------------------------------------------------------------

/// The text the request signature covers:
/// `market|direction|limit_price_or_none|tickets|sha256_hex(reasoning)`.
pub open spec fn canonical_spec(market: Seq<char>, direction: Seq<char>, limit_price: Option<Seq<char>>, tickets: u32, reasoning: Seq<char>) -> Seq<char> {
    market + "|"@ + direction + "|"@ + json::or_default(limit_price, "none"@) + "|"@ + dec_nat(tickets as nat) + "|"@
        + crypto::hex_lower(crypto::sha256(vstd::utf8::encode_utf8(reasoning)))
}

/// The canonical text ends with the lowercase hex SHA-256 digest of the
/// UTF-8 bytes of the whole reasoning, and the reasoning enters the text
/// nowhere else: for two reasonings the texts agree up to their digests, and
/// reasonings with the same digest give the same text.
pub proof fn lemma_canonical_covers_whole_reasoning(market: Seq<char>, direction: Seq<char>,
    limit_price: Option<Seq<char>>, tickets: u32, reasoning: Seq<char>, other: Seq<char>)
    ensures
        ({
            let c = canonical_spec(market, direction, limit_price, tickets, reasoning);
            let h = crypto::hex_lower(crypto::sha256(vstd::utf8::encode_utf8(reasoning)));
            let c2 = canonical_spec(market, direction, limit_price, tickets, other);
            let h2 = crypto::hex_lower(crypto::sha256(vstd::utf8::encode_utf8(other)));
            &&& c.len() >= h.len()
            &&& c.skip(c.len() - h.len()) == h
            &&& c2.len() >= h2.len()
            &&& c.take(c.len() - h.len()) == c2.take(c2.len() - h2.len())
        }),
        crypto::sha256(vstd::utf8::encode_utf8(reasoning)) == crypto::sha256(vstd::utf8::encode_utf8(other))
            ==> canonical_spec(market, direction, limit_price, tickets, reasoning)
            == canonical_spec(market, direction, limit_price, tickets, other),
{
    let head = market + "|"@ + direction + "|"@ + json::or_default(limit_price, "none"@) + "|"@ + dec_nat(tickets as nat)
        + "|"@;
    let h = crypto::hex_lower(crypto::sha256(vstd::utf8::encode_utf8(reasoning)));
    let h2 = crypto::hex_lower(crypto::sha256(vstd::utf8::encode_utf8(other)));
    let c = canonical_spec(market, direction, limit_price, tickets, reasoning);
    let c2 = canonical_spec(market, direction, limit_price, tickets, other);
    assert(c =~= head + h);
    assert(c2 =~= head + h2);
    assert(c.skip(c.len() - h.len()) =~= h);
    assert(c.take(c.len() - h.len()) =~= head);
    assert(c2.take(c2.len() - h2.len()) =~= head);
}

/// The lowercase hex SHA-256 digest of the UTF-8 bytes of `s`.
pub fn sha256_hex(s: &str) -> (r: String)
    ensures
        r@ == crypto::hex_lower(crypto::sha256(vstd::utf8::encode_utf8(s@))),
        r@.len() == 64,
{
    let d = crypto::sha256_digest(s.as_bytes());
    proof {
        crypto::lemma_hex_lower_len(d@);
    }
    crypto::hex_encode(d.as_slice())
}

/// The text the request signature covers, matching the server's format.
pub fn canonical_body(market: &str, direction: &str, limit_price: Option<&str>, tickets: u32, reasoning: &str) -> (r: String)
    ensures
        r@ == canonical_spec(market@, direction@, match limit_price { Some(l) => Some(l@), None => None }, tickets, reasoning@),
{
    let mut out = text::chars_of(market);
    text::push_str(&mut out, "|");
    text::push_str(&mut out, direction);
    text::push_str(&mut out, "|");
    match limit_price {
        Some(l) => text::push_str(&mut out, l),
        None => text::push_str(&mut out, "none"),
    }
    text::push_str(&mut out, "|");
    text::push_u64(&mut out, tickets as u64);
    text::push_str(&mut out, "|");
    let h = sha256_hex(reasoning);
    text::push_str(&mut out, h.as_str());
    text::string_of(&out)
}

/// The number whose text is `t` (the caller turns it back into a float).
pub open spec fn number_text(j: Json, t: Seq<char>) -> bool {
    j matches Json::Number(JsonNumber::Float(x)) && x@ == t
}

/// The JSON body of a submission: market, direction, tickets, reasoning and,
/// when given, the limit price.
pub open spec fn body_spec(b: Json, market: Seq<char>, direction: Seq<char>, tickets: u32, reasoning: Seq<char>, limit_price: Option<Seq<char>>) -> bool {
    &&& b.field_str("market_id"@) == Some(market)
    &&& b.field_str("prediction"@) == Some(direction)
    &&& b.get_spec("tickets"@) == Some(Json::Number(JsonNumber::PosInt(tickets as u64)))
    &&& b.field_str("reasoning"@) == Some(reasoning)
    &&& match limit_price {
        Some(l) => keys_of(b) == seq!["market_id"@, "prediction"@, "tickets"@, "reasoning"@, "limit_price"@]
            && number_text(b.get_spec("limit_price"@).unwrap(), l),
        None => keys_of(b) == seq!["market_id"@, "prediction"@, "tickets"@, "reasoning"@],
    }
}

/// The JSON body of a submission.
pub fn submission_body(market: &str, direction: &str, tickets: u32, reasoning: &str, limit_price: Option<&str>) -> (r: Json)
    ensures
        body_spec(r, market@, direction@, tickets, reasoning@, match limit_price { Some(l) => Some(l@), None => None }),
{
    let m: Vec<(String, Json)> = match limit_price {
        Some(l) => vec![
            (text::to_owned_string("market_id"), json::jstr(market)),
            (text::to_owned_string("prediction"), json::jstr(direction)),
            (text::to_owned_string("tickets"), json::juint(tickets as u64)),
            (text::to_owned_string("reasoning"), json::jstr(reasoning)),
            (text::to_owned_string("limit_price"), Json::Number(JsonNumber::Float(text::to_owned_string(l)))),
        ],
        None => vec![
            (text::to_owned_string("market_id"), json::jstr(market)),
            (text::to_owned_string("prediction"), json::jstr(direction)),
            (text::to_owned_string("tickets"), json::juint(tickets as u64)),
            (text::to_owned_string("reasoning"), json::jstr(reasoning)),
        ],
    };
    let r = Json::Object(m);
    proof {
        reveal_strlit("market_id");
        reveal_strlit("prediction");
        reveal_strlit("tickets");
        reveal_strlit("reasoning");
        reveal_strlit("limit_price");
        assert("market_id"@.len() == 9 && "prediction"@.len() == 10 && "tickets"@.len() == 7);
        assert("reasoning"@.len() == 9 && "limit_price"@.len() == 11);
        assert("market_id"@[0] != "reasoning"@[0]);
        reveal_with_fuel(json::member_index_from, 6);
        if limit_price is Some {
            assert(keys_of(r) =~= seq!["market_id"@, "prediction"@, "tickets"@, "reasoning"@, "limit_price"@]);
        } else {
            assert(keys_of(r) =~= seq!["market_id"@, "prediction"@, "tickets"@, "reasoning"@]);
        }
    }
    r
}

// ---------------------------------------------------------------------------
// Checking the request
// ---------------------------------------------------------------------------

/// The hints after a request that must be corrected.
pub open spec fn fix_hint(i: Internal) -> bool {
    i.is_hint("fix_command"@, None, None)
}

/// The check a submission fails first, as the error output it yields:
/// direction, ticket count, limit price range, reasoning length, in order.
pub open spec fn validation_failure(args: SubmitArgs, out: Output) -> bool {
    if !(args.prediction@ == "up"@ || args.prediction@ == "down"@) {
        &&& out.is_failure("Prediction must be 'up' or 'down'."@, "INVALID_DIRECTION"@, "validation"@, false,
            "Use --prediction up or --prediction down."@)
        &&& keys_of(out.debug_spec()) == seq!["provided_prediction"@, "valid_values"@]
        &&& out.debug_spec().field_str("provided_prediction"@) == Some(args.prediction@)
        &&& fix_hint(out._internal)
    } else if args.tickets < MIN_TICKETS {
        &&& out.is_failure(
            "Tickets must be >= 1. You specified "@ + dec_nat(args.tickets as nat) + "."@,
            "INVALID_TICKETS"@, "validation"@, false,
            "Use --tickets N where N >= 1."@)
        &&& keys_of(out.debug_spec()) == seq!["provided_tickets"@, "minimum_tickets"@]
        &&& out.debug_spec().field_u64("provided_tickets"@) == Some(args.tickets as u64)
        &&& out.debug_spec().field_u64("minimum_tickets"@) == Some(1u64)
        &&& fix_hint(out._internal)
    } else if args.limit_price matches Some(lp) && !lp.in_range {
        &&& out.is_failure(
            "limit-price must be between 0.01 and 0.99, got "@ + args.limit_price.unwrap().text@,
            "INVALID_LIMIT_PRICE"@, "validation"@, false, "Use --limit-price 0.01 to 0.99."@)
        &&& keys_of(out.debug_spec()) == seq!["provided_limit_price"@, "valid_range"@]
        &&& number_text(out.debug_spec().get_spec("provided_limit_price"@).unwrap(), args.limit_price.unwrap().text@)
        &&& out.debug_spec().field_str("valid_range"@) == Some("0.01-0.99"@)
        &&& fix_hint(out._internal)
    } else {
        &&& args.reasoning@.len() < 80
        &&& out.is_failure(
            "Reasoning too short: "@ + dec_nat(args.reasoning@.len()) + " characters (minimum 80)."@,
            "REASONING_TOO_SHORT"@, "validation"@, false,
            "Expand your reasoning to at least 80 characters with at least 2 sentences."@)
        &&& keys_of(out.debug_spec()) == seq!["reasoning_length"@, "minimum_length"@]
        &&& out.debug_spec().field_u64("reasoning_length"@) == Some(args.reasoning@.len() as u64)
        &&& out.debug_spec().field_u64("minimum_length"@) == Some(80u64)
        &&& fix_hint(out._internal)
    }
}

/// A submission passes every check.
pub open spec fn submission_valid(args: SubmitArgs) -> bool {
    &&& (args.prediction@ == "up"@ || args.prediction@ == "down"@)
    &&& args.tickets >= MIN_TICKETS
    &&& (args.limit_price matches Some(lp) ==> lp.in_range)
    &&& args.reasoning@.len() >= 80
}

fn failure(message: String, code: &str, suggestion: &str, debug: Json) -> (r: Output)
    ensures
        r.is_failure(message@, code@, "validation"@, false, suggestion@),
        r.debug_spec() == debug,
        fix_hint(r._internal),
{
    Output::error_with_debug(
        message,
        text::to_owned_string(code),
        text::to_owned_string("validation"),
        false,
        text::to_owned_string(suggestion),
        debug,
        Internal::hint("fix_command", None, None),
    )
}

/// Checks a submission before anything is sent; the error output of the
/// first check it fails, or nothing when it passes them all.
pub fn validate_submission(args: &SubmitArgs) -> (r: Option<Output>)
    ensures
        submission_valid(*args) <==> r is None,
        r matches Some(out) ==> validation_failure(*args, out),
{
    proof {
        reveal_strlit("provided_prediction");
        reveal_strlit("valid_values");
        reveal_strlit("provided_tickets");
        reveal_strlit("minimum_tickets");
        reveal_strlit("provided_limit_price");
        reveal_strlit("valid_range");
        reveal_strlit("reasoning_length");
        reveal_strlit("minimum_length");
        assert("provided_prediction"@.len() != "valid_values"@.len());
        assert("provided_tickets"@.len() != "minimum_tickets"@.len());
        assert("provided_limit_price"@.len() != "valid_range"@.len());
        assert("reasoning_length"@.len() != "minimum_length"@.len());
        reveal_with_fuel(json::member_index_from, 3);
    }
    if !(json::eq_str(args.prediction.as_str(), "up") || json::eq_str(args.prediction.as_str(), "down")) {
        let debug = Json::Object(vec![
            (text::to_owned_string("provided_prediction"), json::jstr(args.prediction.as_str())),
            (text::to_owned_string("valid_values"), Json::Array(vec![json::jstr("up"), json::jstr("down")])),
        ]);
        assert(keys_of(debug) =~= seq!["provided_prediction"@, "valid_values"@]);
        return Some(failure(
            text::to_owned_string("Prediction must be 'up' or 'down'."),
            "INVALID_DIRECTION",
            "Use --prediction up or --prediction down.",
            debug,
        ));
    }
    if args.tickets < MIN_TICKETS {
        let mut msg = text::chars_of("Tickets must be >= 1. You specified ");
        text::push_u64(&mut msg, args.tickets as u64);
        text::push_str(&mut msg, ".");
        let debug = Json::Object(vec![
            (text::to_owned_string("provided_tickets"), json::juint(args.tickets as u64)),
            (text::to_owned_string("minimum_tickets"), json::juint(1)),
        ]);
        assert(keys_of(debug) =~= seq!["provided_tickets"@, "minimum_tickets"@]);
        return Some(failure(
            text::string_of(&msg),
            "INVALID_TICKETS",
            "Use --tickets N where N >= 1.",
            debug,
        ));
    }
    if let Some(lp) = &args.limit_price {
        if !lp.in_range {
            let debug = Json::Object(vec![
                (text::to_owned_string("provided_limit_price"), Json::Number(JsonNumber::Float(text::to_owned_string(lp.text.as_str())))),
                (text::to_owned_string("valid_range"), json::jstr("0.01-0.99")),
            ]);
            assert(keys_of(debug) =~= seq!["provided_limit_price"@, "valid_range"@]);
            return Some(failure(
                text::concat2("limit-price must be between 0.01 and 0.99, got ", lp.text.as_str()),
                "INVALID_LIMIT_PRICE",
                "Use --limit-price 0.01 to 0.99.",
                debug,
            ));
        }
    }
    let reasoning_len = text::char_count(args.reasoning.as_str());
    if reasoning_len < 80 {
        let mut msg = text::chars_of("Reasoning too short: ");
        text::push_u64(&mut msg, reasoning_len as u64);
        text::push_str(&mut msg, " characters (minimum 80).");
        let debug = Json::Object(vec![
            (text::to_owned_string("reasoning_length"), json::juint(reasoning_len as u64)),
            (text::to_owned_string("minimum_length"), json::juint(80)),
        ]);
        assert(keys_of(debug) =~= seq!["reasoning_length"@, "minimum_length"@]);
        return Some(failure(
            text::string_of(&msg),
            "REASONING_TOO_SHORT",
            "Expand your reasoning to at least 80 characters with at least 2 sentences.",
            debug,
        ));
    }
    None
}

// ---------------------------------------------------------------------------
// Dry run
// ---------------------------------------------------------------------------

/// The command that would submit `args` (reasoning cut to 50 characters).
pub open spec fn submit_command_spec(args: SubmitArgs) -> Seq<char> {
    "predict-agent submit --market "@ + args.market@ + " --prediction "@ + args.prediction@ + " --tickets "@
        + dec_nat(args.tickets as nat) + " --reasoning \""@
        + args.reasoning@.take(if args.reasoning@.len() < 50 { args.reasoning@.len() as int } else { 50 })
        + "\""@ + match args.limit_price {
            Some(lp) => " --limit-price "@ + lp.text@,
            None => Seq::empty(),
        }
}

/// The output of a dry run: what would be submitted, and the command that
/// would submit it.
pub fn dry_run_output(args: &SubmitArgs, body: Json) -> (r: Output)
    ensures
        r.is_success("[dry-run] Would submit "@ + text::uppercase(args.prediction@) + " prediction for market "@
            + args.market@ + " with "@ + dec_nat(args.tickets as nat) + " tickets."@),
        keys_of(r.data_spec()) == seq!["dry_run"@, "would_submit"@],
        r.data_spec().get_spec("dry_run"@) == Some(Json::Bool(true)),
        r.data_spec().get_spec("would_submit"@) == Some(body),
        r._internal.is_hint("submit"@, Some(submit_command_spec(*args)), None),
{
    let up = text::to_uppercase(args.prediction.as_str());
    let mut msg = text::chars_of("[dry-run] Would submit ");
    text::push_str(&mut msg, up.as_str());
    text::push_str(&mut msg, " prediction for market ");
    text::push_str(&mut msg, args.market.as_str());
    text::push_str(&mut msg, " with ");
    text::push_u64(&mut msg, args.tickets as u64);
    text::push_str(&mut msg, " tickets.");
    let mut cmd = text::chars_of("predict-agent submit --market ");
    text::push_str(&mut cmd, args.market.as_str());
    text::push_str(&mut cmd, " --prediction ");
    text::push_str(&mut cmd, args.prediction.as_str());
    text::push_str(&mut cmd, " --tickets ");
    text::push_u64(&mut cmd, args.tickets as u64);
    text::push_str(&mut cmd, " --reasoning \"");
    let head = text::take_chars(args.reasoning.as_str(), 50);
    text::push_str(&mut cmd, head.as_str());
    text::push_str(&mut cmd, "\"");
    match &args.limit_price {
        Some(lp) => {
            text::push_str(&mut cmd, " --limit-price ");
            text::push_str(&mut cmd, lp.text.as_str());
        },
        None => {
            assert(cmd@ + Seq::<char>::empty() == cmd@);
        },
    }
    assert(cmd@ =~= submit_command_spec(*args));
    proof {
        reveal_strlit("dry_run");
        reveal_strlit("would_submit");
        assert("dry_run"@.len() != "would_submit"@.len());
        reveal_with_fuel(json::member_index_from, 3);
    }
    let data = Json::Object(vec![
        (text::to_owned_string("dry_run"), Json::Bool(true)),
        (text::to_owned_string("would_submit"), body),
    ]);
    assert(keys_of(data) =~= seq!["dry_run"@, "would_submit"@]);
    Output::success(text::string_of(&msg), data, Internal::hint("submit", Some(text::string_of(&cmd)), None))
}

// ---------------------------------------------------------------------------
// Reading the server's rejection
// ---------------------------------------------------------------------------

/// Error details the server attached to a rejection.
#[derive(Debug, PartialEq)]
pub struct ServerError {
    pub code: String,
    pub category: String,
    pub retryable: bool,
    pub suggestion: String,
}

/// The structured error of a JSON document: `error.code` is required;
/// `category` defaults to `unknown`, `retryable` to false, `suggestion` to
/// the empty text.
pub open spec fn structured_error_of(v: Json) -> Option<(Seq<char>, Seq<char>, bool, Seq<char>)> {
    match v.get_spec("error"@) {
        Some(e) => match e.field_str("code"@) {
            Some(code) => Some((
                code,
                json::or_default(e.field_str("category"@), "unknown"@),
                json::or_default(e.field_bool("retryable"@), false),
                json::or_default(e.field_str("suggestion"@), Seq::empty()),
            )),
            None => None,
        },
        None => None,
    }
}

/// The structured error in the JSON text `s`.
pub open spec fn structured_error(s: Seq<char>) -> Option<(Seq<char>, Seq<char>, bool, Seq<char>)> {
    match json::json_parse(s) {
        Some(v) => structured_error_of(v),
        None => None,
    }
}

/// The error details of a rejection: those the server gave (in the whole
/// text, else in the JSON from its first `{`), else ones inferred from
/// well-known markers in the text.
pub open spec fn server_error_spec(err: Seq<char>) -> (Seq<char>, Seq<char>, bool, Seq<char>) {
    if structured_error(err) is Some {
        structured_error(err).unwrap()
    } else if text::from_first(err, '{') is Some && structured_error(text::from_first(err, '{').unwrap()) is Some {
        structured_error(text::from_first(err, '{').unwrap()).unwrap()
    } else if text::contains(err, "RATE_LIMIT"@) || text::contains(err, "429"@) {
        ("RATE_LIMIT_EXCEEDED"@, "rate_limit"@, true, "Wait and retry."@)
    } else if text::contains(err, "MARKET_CLOSED"@) {
        ("MARKET_CLOSED"@, "validation"@, false, "Choose an open market."@)
    } else if text::contains(err, "INSUFFICIENT_BALANCE"@) || text::contains(err, "insufficient"@) {
        ("INSUFFICIENT_BALANCE"@, "validation"@, false, "Reduce --tickets or wait for the next chip feed (every 4 hours)."@)
    } else if text::contains(err, "REASONING_DUPLICATE"@) || text::contains(err, "duplicate"@) {
        ("REASONING_DUPLICATE"@, "validation"@, false,
            "Write completely new analysis. Do not reuse or rephrase previous reasoning."@)
    } else if text::contains(err, "SERVICE_UNAVAILABLE"@) || text::contains(err, "503"@) {
        ("SERVICE_UNAVAILABLE"@, "dependency"@, true,
            "Server dependency temporarily down. Wait a few seconds and retry."@)
    } else {
        ("SUBMISSION_FAILED"@, "unknown"@, false, "Check the error details and retry."@)
    }
}

impl ServerError {
    /// The details as plain values.
    pub open spec fn spec_tuple(self) -> (Seq<char>, Seq<char>, bool, Seq<char>) {
        (self.code@, self.category@, self.retryable, self.suggestion@)
    }
}

fn error_details(code: &str, category: &str, retryable: bool, suggestion: &str) -> (r: ServerError)
    ensures
        r.spec_tuple() == (code@, category@, retryable, suggestion@),
{
    ServerError {
        code: text::to_owned_string(code),
        category: text::to_owned_string(category),
        retryable,
        suggestion: text::to_owned_string(suggestion),
    }
}

/// The error details that a parsed rejection carries, when it carries
/// `error.code`.
pub fn server_error_from_json(v: &Json) -> (r: Option<ServerError>)
    ensures
        match structured_error_of(*v) {
            Some(t) => r is Some && r.unwrap().spec_tuple() == t,
            None => r is None,
        },
{
    let e = v.get("error")?;
    let code = e.field_str_exec("code")?;
    let category = match e.field_str_exec("category") {
        Some(c) => text::to_owned_string(c),
        None => text::to_owned_string("unknown"),
    };
    let retryable = match e.field_bool_exec("retryable") {
        Some(b) => b,
        None => false,
    };
    let suggestion = match e.field_str_exec("suggestion") {
        Some(x) => text::to_owned_string(x),
        None => String::new(),
    };
    Some(ServerError { code: text::to_owned_string(code), category, retryable, suggestion })
}

fn structured_error_exec(s: &str) -> (r: Option<ServerError>)
    ensures
        match structured_error(s@) {
            Some(t) => r is Some && r.unwrap().spec_tuple() == t,
            None => r is None,
        },
{
    let v = json::parse_json(s)?;
    server_error_from_json(&v)
}

/// Reads the error details of a rejected submission.
pub fn parse_server_error(err: &str) -> (r: ServerError)
    ensures
        r.spec_tuple() == server_error_spec(err@),
{
    if let Some(e) = structured_error_exec(err) {
        return e;
    }
    if let Some(tail) = text::from_first_char(err, '{') {
        if let Some(e) = structured_error_exec(tail.as_str()) {
            return e;
        }
    }
    if text::contains_str(err, "RATE_LIMIT") || text::contains_str(err, "429") {
        return error_details("RATE_LIMIT_EXCEEDED", "rate_limit", true, "Wait and retry.");
    }
    if text::contains_str(err, "MARKET_CLOSED") {
        return error_details("MARKET_CLOSED", "validation", false, "Choose an open market.");
    }
    if text::contains_str(err, "INSUFFICIENT_BALANCE") || text::contains_str(err, "insufficient") {
        return error_details(
            "INSUFFICIENT_BALANCE",
            "validation",
            false,
            "Reduce --tickets or wait for the next chip feed (every 4 hours).",
        );
    }
    if text::contains_str(err, "REASONING_DUPLICATE") || text::contains_str(err, "duplicate") {
        return error_details(
            "REASONING_DUPLICATE",
            "validation",
            false,
            "Write completely new analysis. Do not reuse or rephrase previous reasoning.",
        );
    }
    if text::contains_str(err, "SERVICE_UNAVAILABLE") || text::contains_str(err, "503") {
        return error_details(
            "SERVICE_UNAVAILABLE",
            "dependency",
            true,
            "Server dependency temporarily down. Wait a few seconds and retry.",
        );
    }
    proof {
        reveal_strlit("");
    }
    error_details("SUBMISSION_FAILED", "unknown", false, "Check the error details and retry.")
}

/// `error.message` of a JSON document, if it has one.
pub open spec fn error_message_of(v: Json) -> Option<Seq<char>> {
    match v.nested("error"@, "message"@) {
        Some(m) => m.str_spec(),
        None => None,
    }
}

/// `error.message` of the JSON text `s`, if it has one.
pub open spec fn error_message_in(s: Seq<char>) -> Option<Seq<char>> {
    match json::json_parse(s) {
        Some(v) => error_message_of(v),
        None => None,
    }
}

/// `message` of the JSON text `s`, if it has one.
pub open spec fn top_message_in(s: Seq<char>) -> Option<Seq<char>> {
    match json::json_parse(s) {
        Some(v) => v.field_str("message"@),
        None => None,
    }
}

/// The most readable message in a rejection: the server's `error.message`
/// or `message` when the whole text is JSON, else `error.message` of the
/// JSON from the first `{`, else the text itself.
pub open spec fn extract_message_spec(err: Seq<char>) -> Seq<char> {
    if error_message_in(err) is Some {
        error_message_in(err).unwrap()
    } else if top_message_in(err) is Some {
        top_message_in(err).unwrap()
    } else if text::from_first(err, '{') is Some && error_message_in(text::from_first(err, '{').unwrap()) is Some {
        error_message_in(text::from_first(err, '{').unwrap()).unwrap()
    } else {
        err
    }
}

pub(crate) fn error_message_exec(s: &str) -> (r: Option<String>)
    ensures
        match error_message_in(s@) {
            Some(m) => r is Some && r.unwrap()@ == m,
            None => r is None,
        },
{
    let v = json::parse_json(s)?;
    error_message_from_json(&v)
}

/// `error.message` of a parsed rejection, if it has one.
pub fn error_message_from_json(v: &Json) -> (r: Option<String>)
    ensures
        match error_message_of(*v) {
            Some(m) => r is Some && r.unwrap()@ == m,
            None => r is None,
        },
{
    let m = v.nested_exec("error", "message")?;
    let t = m.as_str()?;
    Some(text::to_owned_string(t))
}

/// The most readable message in a rejection.
pub fn extract_message(err: &str) -> (r: String)
    ensures
        r@ == extract_message_spec(err@),
{
    if let Some(m) = error_message_exec(err) {
        return m;
    }
    if let Some(v) = json::parse_json(err) {
        if let Some(m) = v.field_str_exec("message") {
            return text::to_owned_string(m);
        }
    }
    if let Some(tail) = text::from_first_char(err, '{') {
        if let Some(m) = error_message_exec(tail.as_str()) {
            return m;
        }
    }
    text::to_owned_string(err)
}

// ---------------------------------------------------------------------------
// Outputs after sending
// ---------------------------------------------------------------------------

/// The output after the server rejected a submission: its error details, the
/// submission echoed for diagnosis, and a hint to retry when the server says
/// retrying may help.
pub fn rejected_output(args: &SubmitArgs, err: &str, server_url: &str) -> (r: Output)
    ensures
        ({
            let (code, category, retryable, suggestion) = server_error_spec(err@);
            &&& r.is_failure("Submission failed: "@ + extract_message_spec(err@), code, category, retryable, suggestion)
            &&& keys_of(r.debug_spec()) == seq!["raw_error"@, "market_id"@, "prediction"@, "tickets"@,
                "reasoning_length"@, "limit_price"@, "server_url"@]
            &&& r.debug_spec().field_str("raw_error"@) == Some(err@)
            &&& r.debug_spec().field_str("market_id"@) == Some(args.market@)
            &&& r.debug_spec().field_str("prediction"@) == Some(args.prediction@)
            &&& r.debug_spec().field_u64("tickets"@) == Some(args.tickets as u64)
            &&& r.debug_spec().field_u64("reasoning_length"@) == Some(args.reasoning@.len() as u64)
            &&& match args.limit_price {
                Some(lp) => number_text(r.debug_spec().get_spec("limit_price"@).unwrap(), lp.text@),
                None => r.debug_spec().get_spec("limit_price"@) == Some(Json::Null),
            }
            &&& r.debug_spec().field_str("server_url"@) == Some(server_url@)
            &&& r._internal.is_hint(
                if retryable { "retry"@ } else { "fix_command"@ },
                Some("predict-agent context"@),
                if retryable { Some(30u64) } else { None },
            )
        }),
{
    let e = parse_server_error(err);
    let msg = text::concat2("Submission failed: ", extract_message(err).as_str());
    let lp = match &args.limit_price {
        Some(lp) => Json::Number(JsonNumber::Float(text::to_owned_string(lp.text.as_str()))),
        None => Json::Null,
    };
    proof {
        reveal_strlit("raw_error");
        reveal_strlit("market_id");
        reveal_strlit("prediction");
        reveal_strlit("tickets");
        reveal_strlit("reasoning_length");
        reveal_strlit("limit_price");
        reveal_strlit("server_url");
        assert("raw_error"@[0] != "market_id"@[0] && "raw_error"@[0] != "prediction"@[0]);
        assert("raw_error"@[0] != "tickets"@[0] && "raw_error"@[0] != "limit_price"@[0]);
        assert("raw_error"@[0] != "server_url"@[0] && "raw_error"@.len() != "reasoning_length"@.len());
        assert("market_id"@[0] != "prediction"@[0] && "market_id"@[0] != "tickets"@[0]);
        assert("market_id"@[0] != "reasoning_length"@[0] && "market_id"@[0] != "limit_price"@[0]);
        assert("market_id"@[0] != "server_url"@[0] && "prediction"@[0] != "tickets"@[0]);
        assert("prediction"@[0] != "reasoning_length"@[0] && "prediction"@[0] != "limit_price"@[0]);
        assert("prediction"@[0] != "server_url"@[0] && "tickets"@[0] != "reasoning_length"@[0]);
        assert("tickets"@[0] != "limit_price"@[0] && "tickets"@[0] != "server_url"@[0]);
        assert("reasoning_length"@[0] != "limit_price"@[0] && "reasoning_length"@[0] != "server_url"@[0]);
        assert("limit_price"@[0] != "server_url"@[0]);
        reveal_with_fuel(json::member_index_from, 8);
    }
    let debug = Json::Object(vec![
        (text::to_owned_string("raw_error"), json::jstr(err)),
        (text::to_owned_string("market_id"), json::jstr(args.market.as_str())),
        (text::to_owned_string("prediction"), json::jstr(args.prediction.as_str())),
        (text::to_owned_string("tickets"), json::juint(args.tickets as u64)),
        (text::to_owned_string("reasoning_length"), json::juint(text::char_count(args.reasoning.as_str()) as u64)),
        (text::to_owned_string("limit_price"), lp),
        (text::to_owned_string("server_url"), json::jstr(server_url)),
    ]);
    assert(keys_of(debug) =~= seq!["raw_error"@, "market_id"@, "prediction"@, "tickets"@, "reasoning_length"@,
        "limit_price"@, "server_url"@]);
    let internal = if e.retryable {
        Internal::hint("retry", Some(text::to_owned_string("predict-agent context")), Some(30))
    } else {
        Internal::hint("fix_command", Some(text::to_owned_string("predict-agent context")), None)
    };
    Output::error_with_debug(msg, e.code, e.category, e.retryable, e.suggestion, debug, internal)
}

/// The message after an accepted submission, by order status: filled,
/// partially filled, or queued.
pub open spec fn accepted_message_spec(direction: Seq<char>, market: Seq<char>, status: Seq<char>, filled: i64, total: u32, payout: Seq<char>) -> Seq<char> {
    let d = text::uppercase(direction);
    if status == "filled"@ {
        "Submitted "@ + d + " for "@ + market + ". Filled "@ + dec_int(filled as int) + "/"@ + dec_nat(total as nat)
            + " tickets. Payout if correct: "@ + payout + " chips."@
    } else if status == "partial"@ {
        "Submitted "@ + d + " for "@ + market + ". Partially filled "@ + dec_int(filled as int) + "/"@
            + dec_nat(total as nat) + " tickets. Unfilled tickets auto-refund at close."@
    } else {
        "Submitted "@ + d + " for "@ + market + ". "@ + dec_nat(total as nat)
            + " tickets queued (no immediate fill). Chips locked until market close."@
    }
}

/// The payout of an accepted order as text: `payout_if_correct` in decimal, or `0`.
pub open spec fn payout_text(data: Json) -> Seq<char> {
    match data.field_i64("payout_if_correct"@) {
        Some(p) => dec_int(p as int),
        None => "0"@,
    }
}

/// The output after the server accepted a submission: the server's `data`,
/// and a message saying how much of the order filled.
pub fn accepted_output(args: &SubmitArgs, resp: Json) -> (r: Output)
    ensures
        ({
            let data = json::or_default(resp.get_spec("data"@), r.data_spec());
            &&& resp.get_spec("data"@) is None ==> r.data_spec() == (Json::Object(r.data_spec()->Object_0))
                && r.data_spec()->Object_0@.len() == 0
            &&& r.is_success(accepted_message_spec(
                json::or_default(data.field_str("direction"@), args.prediction@),
                args.market@,
                json::or_default(data.field_str("order_status"@), "open"@),
                json::or_default(data.field_i64("tickets_filled"@), 0),
                args.tickets,
                payout_text(data),
            ))
            &&& r.data_spec() == data
            &&& r._internal.is_hint("fetch_context"@, Some("predict-agent context"@), None)
        }),
{
    let data = match json::into_member(resp, "data") {
        Some(d) => d,
        None => json::empty_object(),
    };
    let direction = match data.field_str_exec("direction") {
        Some(d) => text::to_owned_string(d),
        None => text::to_owned_string(args.prediction.as_str()),
    };
    let filled: i64 = match data.field_i64_exec("tickets_filled") {
        Some(f) => f,
        None => 0,
    };
    let status = match data.field_str_exec("order_status") {
        Some(st) => text::to_owned_string(st),
        None => text::to_owned_string("open"),
    };
    let payout = match data.field_i64_exec("payout_if_correct") {
        Some(p) => text::i64_to_string(p),
        None => text::to_owned_string("0"),
    };
    let d = text::to_uppercase(direction.as_str());
    let mut msg = text::chars_of("Submitted ");
    text::push_str(&mut msg, d.as_str());
    text::push_str(&mut msg, " for ");
    text::push_str(&mut msg, args.market.as_str());
    if json::eq_str(status.as_str(), "filled") {
        text::push_str(&mut msg, ". Filled ");
        text::push_i64(&mut msg, filled);
        text::push_str(&mut msg, "/");
        text::push_u64(&mut msg, args.tickets as u64);
        text::push_str(&mut msg, " tickets. Payout if correct: ");
        text::push_str(&mut msg, payout.as_str());
        text::push_str(&mut msg, " chips.");
    } else if json::eq_str(status.as_str(), "partial") {
        text::push_str(&mut msg, ". Partially filled ");
        text::push_i64(&mut msg, filled);
        text::push_str(&mut msg, "/");
        text::push_u64(&mut msg, args.tickets as u64);
        text::push_str(&mut msg, " tickets. Unfilled tickets auto-refund at close.");
    } else {
        text::push_str(&mut msg, ". ");
        text::push_u64(&mut msg, args.tickets as u64);
        text::push_str(&mut msg, " tickets queued (no immediate fill). Chips locked until market close.");
    }
    Output::success(
        text::string_of(&msg),
        data,
        Internal::hint("fetch_context", Some(text::to_owned_string("predict-agent context")), None),
    )
}


/// The limit price carried by a body, as its text.
pub open spec fn body_limit_price(b: Json) -> Option<Seq<char>> {
    match b.get_spec("limit_price"@) {
        Some(Json::Number(JsonNumber::Float(t))) => Some(t@),
        _ => None,
    }
}

/// The text the signature covers is the one rebuilt from the body that is
/// sent: the same market, direction, limit price, tickets and reasoning.
pub proof fn lemma_signature_covers_body(b: Json, market: Seq<char>, direction: Seq<char>, tickets: u32, reasoning: Seq<char>, limit_price: Option<Seq<char>>)
    requires
        body_spec(b, market, direction, tickets, reasoning, limit_price),
    ensures
        canonical_spec(
            b.field_str("market_id"@).unwrap(),
            b.field_str("prediction"@).unwrap(),
            body_limit_price(b),
            b.get_spec("tickets"@).unwrap().u64_spec().unwrap() as u32,
            b.field_str("reasoning"@).unwrap(),
        ) == canonical_spec(market, direction, limit_price, tickets, reasoning),
{
    assert((tickets as u64) as u32 == tickets);
    if limit_price is None {
        reveal_strlit("limit_price");
        reveal_strlit("market_id");
        reveal_strlit("prediction");
        reveal_strlit("tickets");
        reveal_strlit("reasoning");
        let ks = seq!["market_id"@, "prediction"@, "tickets"@, "reasoning"@];
        assert(!ks.contains("limit_price"@)) by {
            if ks.contains("limit_price"@) {
                let i = choose|i: int| 0 <= i < ks.len() && ks[i] == "limit_price"@;
                assert(ks[i].len() != "limit_price"@.len() || ks[i][0] != "limit_price"@[0]);
            }
        }
        json::lemma_absent_key(b, "limit_price"@);
    } else {
        assert(keys_of(b)[4] == "limit_price"@);
        json::lemma_present_key(b, "limit_price"@);
    }
}

} // verus!
