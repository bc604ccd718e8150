//! The background prediction loop: what each round decides, and how the loop
//! paces itself between rounds.
//!
//! A round fetches the agent's status and the server's market
//! recommendations, asks the language model for a decision and submits it.
//! The fetching, the model call and the sleeping are done by the caller; the
//! decisions between them are made here.
use vstd::prelude::*;
use crate::context;
use crate::json::{self, Json};
use crate::text;

verus! {

/// Options of the prediction loop.
#[derive(Debug, PartialEq)]
pub struct LoopArgs {
    /// Seconds between rounds.
    pub interval: u64,
    /// Rounds to run; 0 runs without limit.
    pub max_iterations: u64,
    /// The model agent to call.
    pub agent_id: String,
    /// Print a notification line after each round.
    pub notify: bool,
}

/// How a round ended.
#[derive(Debug, PartialEq)]
pub enum IterationResult {
    Submitted {
        market: String,
        direction: String,
        tickets: u32,
        tickets_filled: u32,
        /// `filled`, `partial` or `open`.
        order_status: String,
    },
    Skipped {
        reason: String,
    },
    NoMarkets {
        wait_seconds: u64,
    },
    RateLimited {
        wait_seconds: u64,
    },
    LlmFailed {
        reason: String,
    },
    Error {
        reason: String,
    },
}

// ---------------------------------------------------------------------------
// Backoff
// ---------------------------------------------------------------------------

/// 2 raised to `consecutive`, the exponent capped at 4.
pub open spec fn backoff_multiplier(consecutive: u32) -> nat {
    if consecutive >= 4 {
        16
    } else if consecutive == 3 {
        8
    } else if consecutive == 2 {
        4
    } else if consecutive == 1 {
        2
    } else {
        1
    }
}

/// The delay before the next round: the server's hint when it gave one,
/// otherwise `base * 2^min(consecutive, 4)` capped at 600 seconds.
pub open spec fn backoff_spec(base: u64, consecutive: u32, server_hint: Option<u64>) -> int {
    match server_hint {
        Some(h) => h as int,
        None => if base * backoff_multiplier(consecutive) < 600 {
            base * backoff_multiplier(consecutive)
        } else {
            600
        },
    }
}

/// The delay before the next round after `consecutive` failures in a row:
/// the server's hint when it gave one, otherwise exponential backoff capped
/// at 600 seconds.
pub fn calculate_backoff(base: u64, consecutive: u32, server_hint: Option<u64>) -> (r: u64)
    requires
        server_hint is None ==> base * backoff_multiplier(consecutive) <= u64::MAX,
    ensures
        r == backoff_spec(base, consecutive, server_hint),
{
    if let Some(hint) = server_hint {
        return hint;
    }
    let multiplier: u64 = if consecutive >= 4 {
        16
    } else if consecutive == 3 {
        8
    } else if consecutive == 2 {
        4
    } else if consecutive == 1 {
        2
    } else {
        1
    };
    let d = base * multiplier;
    if d < 600 {
        d
    } else {
        600
    }
}

/// Without a server hint the delay never exceeds 600 seconds.
pub proof fn lemma_backoff_capped(base: u64, consecutive: u32)
    ensures
        backoff_spec(base, consecutive, None) <= 600,
{
}

/// Without a server hint the delay grows with the number of failures in a
/// row, and never falls below the base interval until the cap is reached.
pub proof fn lemma_backoff_monotone(base: u64, c1: u32, c2: u32)
    requires
        c1 <= c2,
    ensures
        backoff_spec(base, c1, None) <= backoff_spec(base, c2, None),
        backoff_spec(base, c1, None) == if base < 600 { base as int } else { 600 } || c1 > 0,
{
    assert(backoff_multiplier(c1) <= backoff_multiplier(c2));
    assert(base * backoff_multiplier(c1) <= base * backoff_multiplier(c2)) by (nonlinear_arith)
        requires
            backoff_multiplier(c1) <= backoff_multiplier(c2),
    ;
}

// ---------------------------------------------------------------------------
// The loop
// ---------------------------------------------------------------------------

/// Counters the loop keeps between rounds.
pub struct LoopState {
    /// Rounds begun so far.
    pub iteration: u64,
    /// Rounds in a row that found no market.
    pub consecutive_empty: u32,
    /// Rounds in a row that failed.
    pub consecutive_errors: u32,
}

/// `x + 1` in 32 bits, wrapping as a release build does.
pub open spec fn inc32(x: u32) -> u32 {
    if x == u32::MAX {
        0
    } else {
        (x + 1) as u32
    }
}

/// `x + 1` in 64 bits, wrapping as a release build does.
pub open spec fn inc64(x: u64) -> u64 {
    if x == u64::MAX {
        0
    } else {
        (x + 1) as u64
    }
}

/// Whether a round numbered `iteration` may run under the limit `max_iterations`.
pub open spec fn round_allowed(iteration: u64, max_iterations: u64) -> bool {
    !(max_iterations > 0 && iteration > max_iterations)
}

/// The delay after a round with outcome `r`, given the counters after it.
pub open spec fn sleep_after(interval: u64, r: IterationResult, errors_after: u32) -> int {
    match r {
        IterationResult::Submitted { .. } => interval as int,
        IterationResult::Skipped { .. } => interval as int,
        IterationResult::NoMarkets { wait_seconds } => wait_seconds as int,
        IterationResult::RateLimited { wait_seconds } => wait_seconds as int,
        IterationResult::LlmFailed { .. } => backoff_spec(interval, errors_after, None),
        IterationResult::Error { .. } => backoff_spec(interval, errors_after, None),
    }
}

/// The counters after a round with outcome `r`.
pub open spec fn counters_after(s: LoopState, r: IterationResult) -> LoopState {
    match r {
        IterationResult::Submitted { .. } => LoopState { iteration: s.iteration, consecutive_empty: 0, consecutive_errors: 0 },
        IterationResult::Skipped { .. } => LoopState { iteration: s.iteration, consecutive_empty: 0, consecutive_errors: 0 },
        IterationResult::NoMarkets { .. } => LoopState { consecutive_empty: inc32(s.consecutive_empty), ..s },
        IterationResult::RateLimited { .. } => s,
        IterationResult::LlmFailed { .. } => LoopState { consecutive_errors: inc32(s.consecutive_errors), ..s },
        IterationResult::Error { .. } => LoopState { consecutive_errors: inc32(s.consecutive_errors), ..s },
    }
}

/// Whether the backoff after a failure fits in 64 bits.
pub open spec fn backoff_fits(interval: u64, r: IterationResult, errors_before: u32) -> bool {
    (r is LlmFailed || r is Error) ==> interval * backoff_multiplier(inc32(errors_before)) <= u64::MAX
}

/// Whether the backoff after a failure fits in 64 bits, tested before
/// `finish_round` is called.
pub fn backoff_fits_check(interval: u64, result: &IterationResult, errors_before: u32) -> (r: bool)
    ensures
        r == backoff_fits(interval, *result, errors_before),
{
    match result {
        IterationResult::LlmFailed { .. } | IterationResult::Error { .. } => {
            let next = errors_before.wrapping_add(1);
            let multiplier: u64 = if next >= 4 {
                16
            } else if next == 3 {
                8
            } else if next == 2 {
                4
            } else if next == 1 {
                2
            } else {
                1
            };
            interval <= u64::MAX / multiplier
        },
        _ => true,
    }
}

impl LoopState {
    /// Counters before the first round.
    pub fn new() -> (r: LoopState)
        ensures
            r == (LoopState { iteration: 0, consecutive_empty: 0, consecutive_errors: 0 }),
    {
        LoopState { iteration: 0, consecutive_empty: 0, consecutive_errors: 0 }
    }

    /// Begins a round: counts it, and answers whether it may run (false
    /// once more than `max_iterations` rounds would have run, when that is
    /// not 0).
    pub fn begin_round(&mut self, max_iterations: u64) -> (r: bool)
        ensures
            final(self).iteration == inc64(old(self).iteration),
            final(self).consecutive_empty == old(self).consecutive_empty,
            final(self).consecutive_errors == old(self).consecutive_errors,
            r == round_allowed(final(self).iteration, max_iterations),
    {
        self.iteration = self.iteration.wrapping_add(1);
        !(max_iterations > 0 && self.iteration > max_iterations)
    }

    /// Records how a round ended and answers how many seconds to sleep
    /// before the next one.
    pub fn finish_round(&mut self, interval: u64, result: &IterationResult) -> (r: u64)
        requires
            backoff_fits(interval, *result, old(self).consecutive_errors),
        ensures
            *final(self) == counters_after(*old(self), *result),
            r == sleep_after(interval, *result, final(self).consecutive_errors),
    {
        match result {
            IterationResult::Submitted { .. } | IterationResult::Skipped { .. } => {
                self.consecutive_empty = 0;
                self.consecutive_errors = 0;
                interval
            },
            IterationResult::NoMarkets { wait_seconds } => {
                self.consecutive_empty = self.consecutive_empty.wrapping_add(1);
                calculate_backoff(interval, self.consecutive_empty, Some(*wait_seconds))
            },
            IterationResult::RateLimited { wait_seconds } => *wait_seconds,
            IterationResult::LlmFailed { .. } | IterationResult::Error { .. } => {
                self.consecutive_errors = self.consecutive_errors.wrapping_add(1);
                calculate_backoff(interval, self.consecutive_errors, None)
            },
        }
    }
}

/// A round that submits or skips clears both failure counters.
pub proof fn lemma_success_resets(s: LoopState, r: IterationResult)
    requires
        r is Submitted || r is Skipped,
    ensures
        counters_after(s, r).consecutive_empty == 0,
        counters_after(s, r).consecutive_errors == 0,
        counters_after(s, r).iteration == s.iteration,
{
}

/// After a round that submitted, the loop sleeps exactly the configured
/// interval, as after a round that skipped, whatever the failure count.
pub proof fn lemma_submitted_round_sleeps_interval(interval: u64, r: IterationResult, skipped: IterationResult,
    errors: u32, other_errors: u32)
    requires
        r is Submitted,
        skipped is Skipped,
    ensures
        sleep_after(interval, r, errors) == interval,
        sleep_after(interval, r, errors) == sleep_after(interval, skipped, other_errors),
{
}

/// With a limit `max > 0`, the rounds that begin from the initial counters
/// run exactly while their number is at most `max`: round `k` runs iff `k <= max`.
pub proof fn lemma_round_limit(max: u64, k: u64)
    requires
        max > 0,
        1 <= k,
    ensures
        round_allowed(k, max) <==> k <= max,
{
}

/// A failed round never waits longer than 600 seconds.
pub proof fn lemma_failure_wait_capped(interval: u64, s: LoopState, r: IterationResult)
    requires
        r is LlmFailed || r is Error,
    ensures
        sleep_after(interval, r, counters_after(s, r).consecutive_errors) <= 600,
{
}

/// The fill summary printed after a submission: `FILLED f/t`, `PARTIAL f/t`,
/// or `PENDING 0/t (waiting for counterparty)`.
pub open spec fn fill_info_spec(order_status: Seq<char>, filled: u32, tickets: u32) -> Seq<char> {
    if order_status == "filled"@ {
        "FILLED "@ + text::dec_nat(filled as nat) + "/"@ + text::dec_nat(tickets as nat)
    } else if order_status == "partial"@ {
        "PARTIAL "@ + text::dec_nat(filled as nat) + "/"@ + text::dec_nat(tickets as nat)
    } else {
        "PENDING 0/"@ + text::dec_nat(tickets as nat) + " (waiting for counterparty)"@
    }
}

/// The fill summary printed after a submission.
pub fn fill_info(order_status: &str, tickets_filled: u32, tickets: u32) -> (r: String)
    ensures
        r@ == fill_info_spec(order_status@, tickets_filled, tickets),
{
    let mut out: Vec<char> = Vec::new();
    if json::eq_str(order_status, "filled") {
        text::push_str(&mut out, "FILLED ");
        text::push_u64(&mut out, tickets_filled as u64);
        text::push_str(&mut out, "/");
        text::push_u64(&mut out, tickets as u64);
    } else if json::eq_str(order_status, "partial") {
        text::push_str(&mut out, "PARTIAL ");
        text::push_u64(&mut out, tickets_filled as u64);
        text::push_str(&mut out, "/");
        text::push_u64(&mut out, tickets as u64);
    } else {
        text::push_str(&mut out, "PENDING 0/");
        text::push_u64(&mut out, tickets as u64);
        text::push_str(&mut out, " (waiting for counterparty)");
    }
    text::string_of(&out)
}

// ---------------------------------------------------------------------------
// Decisions within a round
// ---------------------------------------------------------------------------

/// An error from fetching the status that a fresh wallet token may cure.
pub open spec fn is_auth_failure_spec(err: Seq<char>) -> bool {
    text::contains(err, "AUTH_FAILED"@) || text::contains(err, "expired"@) || text::contains(err, "invalid token"@)
}

/// Whether a failed status fetch calls for refreshing the wallet token.
pub fn is_auth_failure(err: &str) -> (r: bool)
    ensures
        r == is_auth_failure_spec(err@),
{
    text::contains_str(err, "AUTH_FAILED") || text::contains_str(err, "expired") || text::contains_str(
        err,
        "invalid token",
    )
}

/// What a round does after a status fetch failed.
#[derive(Debug, PartialEq)]
pub enum StatusStep {
    /// Refresh the wallet token, build a new client and fetch the status
    /// once more.
    RefreshToken,
    /// End the round with this result.
    Stop(IterationResult),
}

/// The round ends in an error with this reason.
pub open spec fn is_error_with(r: IterationResult, reason: Seq<char>) -> bool {
    r matches IterationResult::Error { reason: got } && got@ == reason
}

/// The decision after a failed status fetch. The first failure that a fresh
/// token may cure asks for one refresh; any other failure, and every failure
/// after the refresh, ends the round, so a round refreshes at most once.
pub fn on_status_failure(after_refresh: bool, err: &str) -> (r: StatusStep)
    ensures
        after_refresh ==> (r matches StatusStep::Stop(res)
            && is_error_with(res, "status fetch failed after refresh: "@ + err@)),
        !after_refresh && is_auth_failure_spec(err@) ==> r is RefreshToken,
        !after_refresh && !is_auth_failure_spec(err@) ==> (r matches StatusStep::Stop(res)
            && is_error_with(res, "status fetch failed: "@ + err@)),
{
    if after_refresh {
        StatusStep::Stop(IterationResult::Error { reason: text::concat2("status fetch failed after refresh: ", err) })
    } else if is_auth_failure(err) {
        StatusStep::RefreshToken
    } else {
        StatusStep::Stop(IterationResult::Error { reason: text::concat2("status fetch failed: ", err) })
    }
}

/// The result of a round whose token refresh failed, naming the failed
/// status fetch and the refresh error.
pub fn on_refresh_failure(err: &str, refresh_err: &str) -> (r: IterationResult)
    ensures
        is_error_with(r, "auth failed and token refresh failed: "@ + err@ + " / "@ + refresh_err@),
{
    let mut v = text::chars_of("auth failed and token refresh failed: ");
    text::push_str(&mut v, err);
    text::push_str(&mut v, " / ");
    text::push_str(&mut v, refresh_err);
    IterationResult::Error { reason: text::string_of(&v) }
}

/// The result of a round whose API client could not be built, before or
/// after a token refresh.
pub fn on_client_failure(after_refresh: bool, err: &str) -> (r: IterationResult)
    ensures
        is_error_with(r, (if after_refresh { "client reinit failed: "@ } else { "API client init failed: "@ }) + err@),
{
    if after_refresh {
        IterationResult::Error { reason: text::concat2("client reinit failed: ", err) }
    } else {
        IterationResult::Error { reason: text::concat2("API client init failed: ", err) }
    }
}

/// The submission window the server reports.
#[derive(Debug, PartialEq)]
pub struct Timeslot {
    pub submissions_remaining: i64,
    pub slot_resets_in: u64,
    pub submissions_used: i64,
    pub slot_limit: i64,
}

/// Member `key` of the `timeslot` of the agent data in a status response.
pub open spec fn timeslot_field(status: Json, key: Seq<char>) -> Option<Json> {
    match status.nested("data"@, "timeslot"@) {
        Some(t) => t.get_spec(key),
        None => None,
    }
}

/// The timeslot of a status response, with the defaults the server's older
/// versions imply: 3 submissions remaining of 3, 0 used, reset in 300 s.
pub open spec fn timeslot_spec(status: Json) -> Timeslot {
    Timeslot {
        submissions_remaining: or_i64(timeslot_field(status, "submissions_remaining"@), 3),
        slot_resets_in: or_u64(timeslot_field(status, "slot_resets_in_seconds"@), 300),
        submissions_used: or_i64(timeslot_field(status, "submissions_used"@), 0),
        slot_limit: or_i64(timeslot_field(status, "slot_limit"@), 3),
    }
}

/// The `i64` value of `o`, or `d`.
pub open spec fn or_i64(o: Option<Json>, d: i64) -> i64 {
    match o {
        Some(v) => match v.i64_spec() {
            Some(i) => i,
            None => d,
        },
        None => d,
    }
}

/// The `u64` value of `o`, or `d`.
pub open spec fn or_u64(o: Option<Json>, d: u64) -> u64 {
    match o {
        Some(v) => match v.u64_spec() {
            Some(u) => u,
            None => d,
        },
        None => d,
    }
}

fn i64_or(o: Option<&Json>, d: i64) -> (r: i64)
    ensures
        r == or_i64(match o { Some(v) => Some(*v), None => None }, d),
{
    match o {
        Some(v) => match v.as_i64() {
            Some(i) => i,
            None => d,
        },
        None => d,
    }
}

fn u64_or(o: Option<&Json>, d: u64) -> (r: u64)
    ensures
        r == or_u64(match o { Some(v) => Some(*v), None => None }, d),
{
    match o {
        Some(v) => match v.as_u64() {
            Some(u) => u,
            None => d,
        },
        None => d,
    }
}

/// The timeslot reported in a status response (`data.timeslot`).
pub fn read_timeslot(status: &Json) -> (r: Timeslot)
    ensures
        r == timeslot_spec(*status),
{
    let t = status.nested_exec("data", "timeslot");
    let field = |key: &str| -> (f: Option<&Json>)
        ensures
            match timeslot_field(*status, key@) {
                Some(v) => f == Some(&v),
                None => f is None,
            },
        {
            match t {
                Some(tv) => tv.get(key),
                None => None,
            }
        };
    Timeslot {
        submissions_remaining: i64_or(field("submissions_remaining"), 3),
        slot_resets_in: u64_or(field("slot_resets_in_seconds"), 300),
        submissions_used: i64_or(field("submissions_used"), 0),
        slot_limit: i64_or(field("slot_limit"), 3),
    }
}

/// The persona in a status response (`data.persona`), or `none`.
pub fn read_persona(status: &Json) -> (r: String)
    ensures
        r@ == match status.get_spec("data"@) {
            Some(d) => json::or_default(d.field_str("persona"@), "none"@),
            None => "none"@,
        },
{
    match status.get("data") {
        Some(d) => match d.field_str_exec("persona") {
            Some(p) => text::to_owned_string(p),
            None => text::to_owned_string("none"),
        },
        None => text::to_owned_string("none"),
    }
}

/// When no submission is left in the timeslot, the round ends rate-limited
/// until the slot resets (at least 10 seconds).
pub fn timeslot_gate(slot: &Timeslot) -> (r: Option<IterationResult>)
    ensures
        slot.submissions_remaining <= 0 ==> r == Some(IterationResult::RateLimited {
            wait_seconds: if slot.slot_resets_in < 10 { 10 } else { slot.slot_resets_in },
        }),
        slot.submissions_remaining > 0 ==> r is None,
{
    if slot.submissions_remaining <= 0 {
        Some(IterationResult::RateLimited {
            wait_seconds: if slot.slot_resets_in < 10 { 10 } else { slot.slot_resets_in },
        })
    } else {
        None
    }
}

/// A recommendation worth acting on: its action is not `skip` and the market
/// closes in more than 120 seconds.
pub open spec fn is_actionable_spec(rec: Json) -> bool {
    rec.field_str("action"@) != Some("skip"@) && match rec.field_i64("seconds_to_close"@) {
        Some(s) => s > 120,
        None => false,
    }
}

/// Whether a server recommendation is worth acting on.
pub fn is_actionable(rec: &Json) -> (r: bool)
    ensures
        r == is_actionable_spec(*rec),
{
    let not_skip = match rec.field_str_exec("action") {
        Some(a) => !json::eq_str(a, "skip"),
        None => true,
    };
    let enough_time = match rec.field_i64_exec("seconds_to_close") {
        Some(s) => s > 120,
        None => false,
    };
    not_skip && enough_time
}

/// The first actionable recommendation.
pub fn first_actionable(recs: &[Json]) -> (r: Option<usize>)
    ensures
        match r {
            Some(i) => i < recs@.len() && is_actionable_spec(recs@[i as int]) && forall|j: int|
                0 <= j < i ==> !is_actionable_spec(#[trigger] recs@[j]),
            None => forall|j: int| 0 <= j < recs@.len() ==> !is_actionable_spec(#[trigger] recs@[j]),
        },
{
    let mut i: usize = 0;
    while i < recs.len()
        invariant
            i <= recs@.len(),
            forall|j: int| 0 <= j < i ==> !is_actionable_spec(#[trigger] recs@[j]),
        decreases recs@.len() - i,
    {
        if is_actionable(&recs[i]) {
            return Some(i);
        }
        i = i + 1;
    }
    None
}

/// A market that closes in more than 120 seconds.
pub open spec fn closes_later(o: Option<i64>) -> bool {
    match o {
        Some(c) => c > 120,
        None => false,
    }
}

/// The seconds until market `m` closes, at the instant `now_secs`.`now_nanos`,
/// when its close time is readable.
pub open spec fn closes_in_at(m: Json, now_secs: i64, now_nanos: u32) -> Option<i64> {
    match m.field_str("close_at"@) {
        Some(c) => context::seconds_until(c, now_secs, now_nanos),
        None => None,
    }
}

/// The first of the active markets that closes in more than 120 seconds, at
/// the instant `now_secs`.`now_nanos` (Unix time).
pub fn first_open_market(markets: &[Json], now_secs: i64, now_nanos: u32) -> (r: Option<usize>)
    ensures
        match r {
            Some(i) => i < markets@.len() && closes_later(closes_in_at(markets@[i as int], now_secs, now_nanos))
                && forall|j: int| 0 <= j < i ==> !closes_later(closes_in_at(#[trigger] markets@[j], now_secs, now_nanos)),
            None => forall|j: int| 0 <= j < markets@.len() ==> !closes_later(closes_in_at(#[trigger] markets@[j], now_secs, now_nanos)),
        },
{
    let mut i: usize = 0;
    while i < markets.len()
        invariant
            i <= markets@.len(),
            forall|j: int| 0 <= j < i ==> !closes_later(closes_in_at(#[trigger] markets@[j], now_secs, now_nanos)),
        decreases markets@.len() - i,
    {
        if let Some(close_at) = markets[i].field_str_exec("close_at") {
            if let Some(c) = context::seconds_until_exec(close_at, now_secs, now_nanos) {
                if c > 120 {
                    return Some(i);
                }
            }
        }
        i = i + 1;
    }
    None
}

/// How many seconds a round that found no market to predict on asks to wait.
pub const NO_MARKET_WAIT: u64 = 300;

/// The active market a round falls back to when no recommendation is
/// actionable: the first that closes in more than 120 seconds, or a wait of
/// 300 seconds when there is none (an empty list included).
pub fn fallback_market(markets: &[Json], now_secs: i64, now_nanos: u32) -> (r: Result<usize, IterationResult>)
    ensures
        match r {
            Ok(i) => i < markets@.len() && closes_later(closes_in_at(markets@[i as int], now_secs, now_nanos))
                && forall|j: int| 0 <= j < i ==> !closes_later(closes_in_at(#[trigger] markets@[j], now_secs, now_nanos)),
            Err(e) => e == (IterationResult::NoMarkets { wait_seconds: NO_MARKET_WAIT })
                && forall|j: int| 0 <= j < markets@.len() ==> !closes_later(closes_in_at(#[trigger] markets@[j], now_secs, now_nanos)),
        },
{
    match first_open_market(markets, now_secs, now_nanos) {
        Some(i) => Ok(i),
        None => Err(IterationResult::NoMarkets { wait_seconds: NO_MARKET_WAIT }),
    }
}

/// The result of a round whose active-markets fetch failed.
pub fn markets_fetch_failure(err: &str) -> (r: IterationResult)
    ensures
        is_error_with(r, "markets fetch failed: "@ + err@),
{
    IterationResult::Error { reason: text::concat2("markets fetch failed: ", err) }
}

/// A round whose chosen market has no id waits 300 seconds.
pub fn without_target(market_id: &str) -> (r: Option<IterationResult>)
    ensures
        r is Some <==> market_id@.len() == 0,
        r is Some ==> r == Some(IterationResult::NoMarkets { wait_seconds: NO_MARKET_WAIT }),
{
    if text::char_count(market_id) == 0 {
        Some(IterationResult::NoMarkets { wait_seconds: NO_MARKET_WAIT })
    } else {
        None
    }
}

/// The text of member `key` of `v`, or the empty text.
pub fn str_field_or_empty(v: &Json, key: &str) -> (r: String)
    ensures
        r@ == json::or_default(v.field_str(key@), Seq::empty()),
{
    match v.field_str_exec(key) {
        Some(s) => text::to_owned_string(s),
        None => String::new(),
    }
}

/// A recommendation names market `id` (as `market_id` or as `id`).
pub open spec fn names_market(rec: Json, id: Seq<char>) -> bool {
    rec.field_str("market_id"@) == Some(id) || rec.field_str("id"@) == Some(id)
}

/// The market to submit to: the one the model named when it is among the
/// recommendations, otherwise the recommended one.
pub fn choose_market(target: Option<&str>, recs: &[Json], recommended: &str) -> (r: String)
    ensures
        match target {
            Some(t) => if exists|j: int| 0 <= j < recs@.len() && names_market(#[trigger] recs@[j], t@) {
                r@ == t@
            } else {
                r@ == recommended@
            },
            None => r@ == recommended@,
        },
{
    match target {
        Some(t) => {
            let mut i: usize = 0;
            while i < recs.len()
                invariant
                    i <= recs@.len(),
                    forall|j: int| 0 <= j < i ==> !names_market(#[trigger] recs@[j], t@),
                    target == Some(t),
                decreases recs@.len() - i,
            {
                let by_market_id = match recs[i].field_str_exec("market_id") {
                    Some(m) => json::eq_str(m, t),
                    None => false,
                };
                let by_id = match recs[i].field_str_exec("id") {
                    Some(m) => json::eq_str(m, t),
                    None => false,
                };
                if by_market_id || by_id {
                    assert(names_market(recs@[i as int], t@));
                    return text::to_owned_string(t);
                }
                i = i + 1;
            }
            text::to_owned_string(recommended)
        },
        None => text::to_owned_string(recommended),
    }
}

/// The fewest tickets an order may carry.
pub const MIN_TICKETS: u32 = 100;

/// The tickets to submit: what the model asked for, otherwise a tenth of the
/// balance; never fewer than `MIN_TICKETS`.
pub fn final_tickets(requested: Option<u32>, tenth_of_balance: u32) -> (r: u32)
    ensures
        r == match requested {
            Some(t) => if t < MIN_TICKETS { MIN_TICKETS } else { t },
            None => if tenth_of_balance < MIN_TICKETS { MIN_TICKETS } else { tenth_of_balance },
        },
        r >= MIN_TICKETS,
{
    let t = match requested {
        Some(t) => t,
        None => if tenth_of_balance < MIN_TICKETS { MIN_TICKETS } else { tenth_of_balance },
    };
    if t < MIN_TICKETS { MIN_TICKETS } else { t }
}

/// The message of the server error embedded in `err` (`error.message` of the
/// JSON starting at the first `{`), else the first 200 characters of `err`.
pub open spec fn short_error_spec(err: Seq<char>) -> Seq<char> {
    let fallback = err.take(if err.len() < 200 { err.len() as int } else { 200 });
    match text::find_first(err, seq!['{']) {
        Some(start) => match json::json_parse(err.skip(start)) {
            Some(v) => match v.nested("error"@, "message"@) {
                Some(m) => match m.str_spec() {
                    Some(s) => s,
                    None => fallback,
                },
                None => fallback,
            },
            None => fallback,
        },
        None => fallback,
    }
}

/// A short description of a failed submission.
pub fn extract_short_error(err: &str) -> (r: String)
    ensures
        r@ == short_error_spec(err@),
{
    let ev = text::chars_of(err);
    let brace = vec!['{'];
    assert(brace@ == seq!['{']);
    let n = ev.len();
    if let Some(start) = text::find_chars(&ev, &brace) {
        let mut tail: Vec<char> = Vec::new();
        let mut k = start;
        while k < ev.len()
            invariant
                start <= k <= ev@.len(),
                tail@ == ev@.subrange(start as int, k as int),
            decreases ev@.len() - k,
        {
            tail.push(ev[k]);
            k = k + 1;
        }
        assert(tail@ == err@.skip(start as int));
        let ts = text::string_of(&tail);
        if let Some(v) = json::parse_json(ts.as_str()) {
            if let Some(m) = v.nested_exec("error", "message") {
                if let Some(s) = m.as_str() {
                    return text::to_owned_string(s);
                }
            }
        }
    }
    text::take_chars(err, 200)
}

/// How a rejected submission ends the round: rate limited for 5 minutes,
/// short of chips (wait 10 minutes for the chip feed), or an error.
pub open spec fn submit_failure_spec(err: Seq<char>, r: IterationResult) -> bool {
    if text::contains(err, "RATE_LIMIT"@) || text::contains(err, "429"@) {
        r == IterationResult::RateLimited { wait_seconds: 300 }
    } else if text::contains(err, "INSUFFICIENT_BALANCE"@) {
        r == IterationResult::NoMarkets { wait_seconds: 600 }
    } else {
        r matches IterationResult::Error { reason } && reason@ == "submit failed: "@ + short_error_spec(err)
    }
}

/// How a rejected submission ends the round.
pub fn submit_failure(err: &str) -> (r: IterationResult)
    ensures
        submit_failure_spec(err@, r),
{
    if text::contains_str(err, "RATE_LIMIT") || text::contains_str(err, "429") {
        return IterationResult::RateLimited { wait_seconds: 300 };
    }
    if text::contains_str(err, "INSUFFICIENT_BALANCE") {
        return IterationResult::NoMarkets { wait_seconds: 600 };
    }
    let short = extract_short_error(err);
    IterationResult::Error { reason: text::concat2("submit failed: ", short.as_str()) }
}

/// The order status and filled tickets of an accepted submission
/// (`data.order_status`, default `open`; `data.tickets_filled`, default 0,
/// taken modulo 2^32 as a cast to `u32` does).
pub fn submission_outcome(resp: &Json, market: String, direction: String, tickets: u32) -> (r: IterationResult)
    ensures
        r matches IterationResult::Submitted { market: m, direction: d, tickets: t, tickets_filled: f, order_status: s }
            && m == market && d == direction && t == tickets
            && s@ == match resp.get_spec("data"@) {
                Some(data) => json::or_default(data.field_str("order_status"@), "open"@),
                None => "open"@,
            }
            && f as int == match resp.get_spec("data"@) {
                Some(data) => or_u64(data.get_spec("tickets_filled"@), 0) as int % 0x1_0000_0000,
                None => 0,
            },
{
    let (status, filled) = match resp.get("data") {
        Some(data) => {
            let s = match data.field_str_exec("order_status") {
                Some(s) => text::to_owned_string(s),
                None => text::to_owned_string("open"),
            };
            let f = u64_or(data.get("tickets_filled"), 0);
            (s, (f % 0x1_0000_0000u64) as u32)
        },
        None => (text::to_owned_string("open"), 0u32),
    };
    IterationResult::Submitted { market, direction, tickets, tickets_filled: filled, order_status: status }
}

} // verus!
