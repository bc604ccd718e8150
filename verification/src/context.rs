//! The decision context: which active markets are still open to a
//! submission, in which order they should be taken, and what the agent is
//! told to do next.
use vstd::prelude::*;
use crate::json::{self, Json, keys_of};
use crate::output::{Internal, Output};
use crate::text::{self, dec_nat};

verus! {

// ---------------------------------------------------------------------------
// Time (chrono)
// ---------------------------------------------------------------------------

/// What `chrono` gives for the whole seconds from the instant
/// `now_secs`.`now_nanos` (Unix time) until the RFC 3339 time `close_at`:
/// `None` when `close_at` does not parse.
pub uninterp spec fn seconds_until(close_at: Seq<char>, now_secs: i64, now_nanos: u32) -> Option<i64>;

/// `close_at.parse::<DateTime<Utc>>()`, then `(close_at - now).num_seconds()`
/// with `now` made by `DateTime::from_timestamp(now_secs, now_nanos)`.  The
/// outcome is named `seconds_until`: it depends on the three arguments alone.
/// The calendar arithmetic itself is not restated here.
#[verifier::external_body]
pub(crate) fn seconds_until_exec(close_at: &str, now_secs: i64, now_nanos: u32) -> (r: Option<i64>)
    ensures
        r == seconds_until(close_at@, now_secs, now_nanos),
{
    let close: chrono::DateTime<chrono::Utc> = close_at.parse().ok()?;
    let now = chrono::DateTime::from_timestamp(now_secs, now_nanos)?;
    Some((close - now).num_seconds())
}

// ---------------------------------------------------------------------------
// Markets
// ---------------------------------------------------------------------------

/// What the context keeps of an active market.
#[derive(Debug, PartialEq)]
pub struct MarketEntry {
    pub id: String,
    pub asset: String,
    pub window: String,
    pub question: String,
    pub close_at: String,
    /// Whole seconds until the market closes (never negative).
    pub closes_in: i64,
    /// This agent already predicted on the market.
    pub already_submitted: bool,
    pub up_tickets: i64,
    pub down_tickets: i64,
    pub participant_count: i64,
    pub prediction_count: i64,
}

/// The string member `key` of `m`, or the empty string.
pub open spec fn str_or_empty(m: Json, key: Seq<char>) -> Seq<char> {
    json::or_default(m.field_str(key), Seq::empty())
}

/// The integer member `key` of `m`, or 0.
pub open spec fn i64_or_zero(m: Json, key: Seq<char>) -> i64 {
    json::or_default(m.field_i64(key), 0)
}

/// The views of a list of strings.
pub open spec fn views(v: Seq<String>) -> Seq<Seq<char>> {
    v.map_values(|s: String| s@)
}

/// What the context keeps of the market `m` at the instant `now`: nothing
/// when `m` has no string `id` or `close_at`, when `close_at` does not parse,
/// or when the market has already closed.
pub open spec fn entry_of(m: Json, now_secs: i64, now_nanos: u32, submitted: Seq<Seq<char>>, e: MarketEntry) -> bool {
    &&& m.field_str("id"@) == Some(e.id@)
    &&& m.field_str("close_at"@) == Some(e.close_at@)
    &&& seconds_until(e.close_at@, now_secs, now_nanos) == Some(e.closes_in)
    &&& e.closes_in >= 0
    &&& e.already_submitted == submitted.contains(e.id@)
    &&& e.asset@ == str_or_empty(m, "asset"@)
    &&& e.window@ == str_or_empty(m, "window"@)
    &&& e.question@ == str_or_empty(m, "question"@)
    &&& e.up_tickets == i64_or_zero(m, "up_tickets_filled"@)
    &&& e.down_tickets == i64_or_zero(m, "down_tickets_filled"@)
    &&& e.participant_count == i64_or_zero(m, "participant_count"@)
    &&& e.prediction_count == i64_or_zero(m, "prediction_count"@)
}

/// Whether `m` is kept at the instant `now`.
pub open spec fn kept(m: Json, now_secs: i64, now_nanos: u32) -> bool {
    &&& m.field_str("id"@) is Some
    &&& m.field_str("close_at"@) is Some
    &&& seconds_until(m.field_str("close_at"@).unwrap(), now_secs, now_nanos) is Some
    &&& seconds_until(m.field_str("close_at"@).unwrap(), now_secs, now_nanos).unwrap() >= 0
}

fn str_member(m: &Json, key: &str) -> (r: String)
    ensures
        r@ == str_or_empty(*m, key@),
{
    match m.field_str_exec(key) {
        Some(s) => text::to_owned_string(s),
        None => String::new(),
    }
}

fn i64_member(m: &Json, key: &str) -> (r: i64)
    ensures
        r == i64_or_zero(*m, key@),
{
    match m.field_i64_exec(key) {
        Some(i) => i,
        None => 0,
    }
}

/// Whether `id` is among `ids`.
pub fn contains_id(ids: &Vec<String>, id: &str) -> (r: bool)
    ensures
        r == views(ids@).contains(id@),
{
    let mut i: usize = 0;
    while i < ids.len()
        invariant
            i <= ids@.len(),
            forall|j: int| 0 <= j < i ==> ids@[j]@ != id@,
        decreases ids@.len() - i,
    {
        if json::eq_str(ids[i].as_str(), id) {
            assert(views(ids@)[i as int] == id@);
            return true;
        }
        i = i + 1;
    }
    proof {
        if views(ids@).contains(id@) {
            let j = choose|j: int| 0 <= j < views(ids@).len() && views(ids@)[j] == id@;
            assert(ids@[j]@ == id@);
        }
    }
    false
}

/// What the context keeps of the market `m` at the instant `now`
/// (`now_secs`.`now_nanos`, Unix time), given the markets this agent already
/// predicted on.
pub fn market_entry(m: &Json, now_secs: i64, now_nanos: u32, submitted: &Vec<String>) -> (r: Option<MarketEntry>)
    ensures
        r is Some <==> kept(*m, now_secs, now_nanos),
        r is Some ==> entry_of(*m, now_secs, now_nanos, views(submitted@), r.unwrap()),
{
    let id = m.field_str_exec("id")?;
    let close_at = m.field_str_exec("close_at")?;
    let closes_in = seconds_until_exec(close_at, now_secs, now_nanos)?;
    if closes_in < 0 {
        return None;
    }
    Some(MarketEntry {
        id: text::to_owned_string(id),
        asset: str_member(m, "asset"),
        window: str_member(m, "window"),
        question: str_member(m, "question"),
        close_at: text::to_owned_string(close_at),
        closes_in,
        already_submitted: contains_id(submitted, id),
        up_tickets: i64_member(m, "up_tickets_filled"),
        down_tickets: i64_member(m, "down_tickets_filled"),
        participant_count: i64_member(m, "participant_count"),
        prediction_count: i64_member(m, "prediction_count"),
    })
}

// ---------------------------------------------------------------------------
// Urgency order
// ---------------------------------------------------------------------------

/// A market can take a prediction: not predicted on yet, and more than two
/// minutes left.
pub open spec fn submittable(e: MarketEntry) -> bool {
    !e.already_submitted && e.closes_in > 120
}

/// Entry `i` comes before entry `j`: it closes sooner, or at the same time
/// and stands earlier in the list.
pub open spec fn before(es: Seq<MarketEntry>, i: int, j: int) -> bool {
    es[i].closes_in < es[j].closes_in || (es[i].closes_in == es[j].closes_in && i < j)
}

/// Position `i` occurs in `order`.
pub open spec fn listed(order: Seq<usize>, i: int) -> bool {
    exists|k: int| 0 <= k < order.len() && order[k] as int == i
}

/// `order` lists the indices of exactly the submittable entries, the one
/// closing soonest first, entries closing together in list order (a stable
/// sort by time left).
pub open spec fn is_urgency_order(es: Seq<MarketEntry>, order: Seq<usize>) -> bool {
    &&& forall|k: int| 0 <= k < order.len() ==> (#[trigger] order[k]) < es.len() && submittable(es[order[k] as int])
    &&& forall|i: int| 0 <= i < es.len() && submittable(#[trigger] es[i]) ==> listed(order, i)
    &&& forall|a: int, b: int| 0 <= a < b < order.len() ==> before(es, #[trigger] order[a] as int, #[trigger] order[b] as int)
}

/// The submittable entries, most urgent first.
pub fn urgency_order(es: &Vec<MarketEntry>) -> (r: Vec<usize>)
    ensures
        is_urgency_order(es@, r@),
{
    let mut order: Vec<usize> = Vec::new();
    let n = es.len();
    let mut i: usize = 0;
    while i < n
        invariant
            n == es@.len(),
            i <= n,
            forall|k: int| 0 <= k < order@.len() ==> (#[trigger] order@[k]) < i && submittable(es@[order@[k] as int]),
            forall|j: int| 0 <= j < i && submittable(#[trigger] es@[j]) ==> listed(order@, j),
            forall|a: int, b: int| 0 <= a < b < order@.len() ==> before(es@, #[trigger] order@[a] as int, #[trigger] order@[b] as int),
        decreases n - i,
    {
        if !es[i].already_submitted && es[i].closes_in > 120 {
            let key = es[i].closes_in;
            let mut p: usize = 0;
            while p < order.len() && es[order[p]].closes_in <= key
                invariant
                    n == es@.len(),
                    i < n,
                    key == es@[i as int].closes_in,
                    p <= order@.len(),
                    forall|k: int| 0 <= k < order@.len() ==> (#[trigger] order@[k]) < i && submittable(es@[order@[k] as int]),
                    forall|q: int| 0 <= q < p ==> es@[(#[trigger] order@[q]) as int].closes_in <= key,
                decreases order@.len() - p,
            {
                p = p + 1;
            }
            let ghost old_order = order@;
            order.insert(p, i);
            proof {
                old_order.insert_ensures(p as int, i);
                assert forall|a: int, b: int| 0 <= a < b < order@.len() implies before(es@, #[trigger] order@[a] as int, #[trigger] order@[b] as int) by {
                    if b < p {
                        assert(order@[a] == old_order[a] && order@[b] == old_order[b]);
                    } else if b == p {
                        assert(order@[a] == old_order[a]);
                        assert(es@[old_order[a] as int].closes_in <= key);
                    } else if a < p {
                        assert(order@[a] == old_order[a] && order@[b] == old_order[b - 1]);
                        assert(before(es@, old_order[a] as int, old_order[b - 1] as int));
                    } else if a == p {
                        assert(order@[b] == old_order[b - 1]);
                        assert(es@[old_order[p as int] as int].closes_in > key);
                        if b - 1 > p {
                            assert(before(es@, old_order[p as int] as int, old_order[b - 1] as int));
                        }
                    } else {
                        assert(order@[a] == old_order[a - 1] && order@[b] == old_order[b - 1]);
                        assert(before(es@, old_order[a - 1] as int, old_order[b - 1] as int));
                    }
                }
                assert forall|k: int| 0 <= k < order@.len() implies (#[trigger] order@[k]) < i + 1 && submittable(es@[order@[k] as int]) by {
                    if k < p {
                        assert(order@[k] == old_order[k]);
                    } else if k > p {
                        assert(order@[k] == old_order[k - 1]);
                    }
                }
                assert forall|j: int| 0 <= j < i + 1 && submittable(#[trigger] es@[j]) implies listed(order@, j) by {
                    if j == i {
                        assert(order@[p as int] == i);
                    } else {
                        assert(listed(old_order, j));
                        let k = choose|k: int| 0 <= k < old_order.len() && old_order[k] as int == j;
                        if k < p {
                            assert(order@[k] as int == j);
                        } else {
                            assert(order@[k + 1] as int == j);
                        }
                    }
                }
            }
        } else {
            proof {
                assert forall|j: int| 0 <= j < i + 1 && submittable(#[trigger] es@[j]) implies listed(order@, j) by {
                    assert(j != i);
                }
            }
        }
        i = i + 1;
    }
    order
}


/// The ids of the entries at the positions `order`, in order.
pub open spec fn ids_at(es: Seq<MarketEntry>, order: Seq<usize>) -> Seq<Seq<char>> {
    order.map_values(|k: usize| es[k as int].id@)
}

/// The ids of the submittable markets, most urgent first.
pub fn submittable_ids(es: &Vec<MarketEntry>) -> (r: Vec<String>)
    ensures
        exists|order: Seq<usize>| is_urgency_order(es@, order) && views(r@) == ids_at(es@, order),
{
    let order = urgency_order(es);
    let mut ids: Vec<String> = Vec::new();
    let mut k: usize = 0;
    while k < order.len()
        invariant
            k <= order@.len(),
            is_urgency_order(es@, order@),
            views(ids@) == ids_at(es@, order@.take(k as int)),
        decreases order@.len() - k,
    {
        let ghost before = ids@;
        ids.push(text::to_owned_string(es[order[k]].id.as_str()));
        assert(views(ids@) == views(before).push(es@[order@[k as int] as int].id@));
        assert(ids_at(es@, order@.take(k + 1)) == ids_at(es@, order@.take(k as int)).push(es@[order@[k as int] as int].id@));
        k = k + 1;
    }
    assert(order@.take(order@.len() as int) == order@);
    ids
}

/// The ids of the markets that the predictions in `preds` were made on.
pub fn submitted_market_ids(preds: &Vec<Json>) -> (r: Vec<String>)
    ensures
        views(r@) == json::string_fields(preds@, "market_id"@),
{
    json::collect_string_fields(preds, "market_id")
}

// ---------------------------------------------------------------------------
// What to do next
// ---------------------------------------------------------------------------

/// What the agent should do: `submit` when a market is open to it, else `wait`.
pub open spec fn action_spec(ids: Seq<Seq<char>>) -> Seq<char> {
    if ids.len() == 0 { "wait"@ } else { "submit"@ }
}

/// Why.
pub open spec fn reason_spec(ids: Seq<Seq<char>>) -> Seq<char> {
    if ids.len() == 0 {
        "No submittable markets (all submitted or closing too soon). Wait for new markets."@
    } else {
        "Markets available. Analyze klines and submit your prediction."@
    }
}

/// The command to run next.
pub open spec fn next_command_spec(ids: Seq<Seq<char>>) -> Seq<char> {
    if ids.len() == 0 {
        "predict-agent context"@
    } else {
        "predict-agent submit --market "@ + ids[0]
            + " --prediction <up|down> --tickets <N> --reasoning \"<your analysis>\""@
    }
}

/// The message to the user.
pub open spec fn context_message_spec(ids: Seq<Seq<char>>) -> Seq<char> {
    if ids.len() == 0 {
        reason_spec(ids)
    } else {
        dec_nat(ids.len()) + " submittable markets. Recommended: "@ + ids[0] + "."@
    }
}

/// The recommendation object: the action, the market (or `null`), and why.
pub open spec fn recommendation_ok(r: Json, ids: Seq<Seq<char>>) -> bool {
    &&& keys_of(r) == seq!["action"@, "market_id"@, "reason"@]
    &&& r.field_str("action"@) == Some(action_spec(ids))
    &&& (if ids.len() == 0 {
        r.get_spec("market_id"@) == Some(Json::Null)
    } else {
        r.field_str("market_id"@) == Some(ids[0])
    })
    &&& r.field_str("reason"@) == Some(reason_spec(ids))
}

/// The recommendation object for the submittable markets `ids`.
pub fn recommendation(ids: &Vec<String>) -> (r: Json)
    ensures
        recommendation_ok(r, views(ids@)),
{
    let empty = ids.len() == 0;
    let action = if empty { "wait" } else { "submit" };
    let reason = if empty {
        "No submittable markets (all submitted or closing too soon). Wait for new markets."
    } else {
        "Markets available. Analyze klines and submit your prediction."
    };
    let market = if empty { Json::Null } else { json::jstr(ids[0].as_str()) };
    proof {
        reveal_strlit("action");
        reveal_strlit("market_id");
        reveal_strlit("reason");
        assert("action"@[0] != "market_id"@[0] && "action"@[0] != "reason"@[0] && "market_id"@[0] != "reason"@[0]);
        reveal_with_fuel(json::member_index_from, 4);
    }
    let r = Json::Object(vec![
        (text::to_owned_string("action"), json::jstr(action)),
        (text::to_owned_string("market_id"), market),
        (text::to_owned_string("reason"), json::jstr(reason)),
    ]);
    assert(keys_of(r) =~= seq!["action"@, "market_id"@, "reason"@]);
    r
}

/// The interval of the candles shown for a market window.
pub open spec fn kline_interval_spec(window: Seq<char>) -> Seq<char> {
    if window == "30m"@ {
        "5m"@
    } else if window == "1h"@ {
        "15m"@
    } else {
        "1m"@
    }
}

/// The interval of the candles shown for a market window: one minute for
/// 15-minute markets (and unknown windows), five for 30-minute, fifteen for
/// hourly ones.
pub fn kline_interval(window: &str) -> (r: &'static str)
    ensures
        r@ == kline_interval_spec(window@),
{
    proof {
        reveal_strlit("15m");
        reveal_strlit("30m");
        reveal_strlit("1h");
    }
    if json::eq_str(window, "15m") {
        assert("15m"@[0] != "30m"@[0] && "15m"@.len() != "1h"@.len());
        "1m"
    } else if json::eq_str(window, "30m") {
        "5m"
    } else if json::eq_str(window, "1h") {
        "15m"
    } else {
        "1m"
    }
}

/// The index of the first entry with id `id`.
pub open spec fn first_with_id(es: Seq<MarketEntry>, id: Seq<char>, k: int) -> Option<int>
    decreases es.len() - k,
{
    if k < 0 || k >= es.len() {
        None
    } else if es[k].id@ == id {
        Some(k)
    } else {
        first_with_id(es, id, k + 1)
    }
}

/// The index of the first entry with id `id`.
pub fn find_entry(es: &Vec<MarketEntry>, id: &str) -> (r: Option<usize>)
    ensures
        match first_with_id(es@, id@, 0) {
            Some(k) => r is Some && r.unwrap() as int == k,
            None => r is None,
        },
{
    let mut k: usize = 0;
    while k < es.len()
        invariant
            k <= es@.len(),
            first_with_id(es@, id@, 0) == first_with_id(es@, id@, k as int),
        decreases es@.len() - k,
    {
        if json::eq_str(es[k].id.as_str(), id) {
            return Some(k);
        }
        k = k + 1;
    }
    None
}

/// The klines section: the candles of the recommended market with its asset,
/// the candle interval for its window, and its id; `null` without candles.
pub open spec fn klines_section_ok(r: Json, candles: Option<Json>, asset: Seq<char>, window: Seq<char>, market_id: Seq<char>) -> bool {
    match candles {
        None => r == Json::Null,
        Some(c) => {
            &&& keys_of(r) == seq!["asset"@, "interval"@, "candles"@, "market_id"@]
            &&& r.field_str("asset"@) == Some(asset)
            &&& r.field_str("interval"@) == Some(kline_interval_spec(window))
            &&& r.get_spec("candles"@) == Some(c)
            &&& r.field_str("market_id"@) == Some(market_id)
        },
    }
}

/// The klines section for the recommended market.
pub fn klines_section(candles: Option<Json>, asset: &str, window: &str, market_id: &str) -> (r: Json)
    ensures
        klines_section_ok(r, candles, asset@, window@, market_id@),
{
    match candles {
        None => Json::Null,
        Some(c) => {
            proof {
                reveal_strlit("asset");
                reveal_strlit("interval");
                reveal_strlit("candles");
                reveal_strlit("market_id");
                assert("asset"@[0] != "interval"@[0] && "asset"@[0] != "candles"@[0] && "asset"@[0] != "market_id"@[0]);
                assert("interval"@[0] != "candles"@[0] && "interval"@[0] != "market_id"@[0] && "candles"@[0] != "market_id"@[0]);
                reveal_with_fuel(json::member_index_from, 5);
            }
            let r = Json::Object(vec![
                (text::to_owned_string("asset"), json::jstr(asset)),
                (text::to_owned_string("interval"), json::jstr(kline_interval(window))),
                (text::to_owned_string("candles"), c),
                (text::to_owned_string("market_id"), json::jstr(market_id)),
            ]);
            assert(keys_of(r) =~= seq!["asset"@, "interval"@, "candles"@, "market_id"@]);
            r
        },
    }
}


/// The annotated market object: the entry's fields, its ticket statistics,
/// and whether it is the recommended one.  The implied probability of `up`
/// (a floating-point ratio) is added by the caller.
pub open spec fn market_json_ok(r: Json, e: MarketEntry, recommended: bool) -> bool {
    &&& keys_of(r) == seq!["id"@, "asset"@, "window"@, "question"@, "closes_in_seconds"@, "close_at"@,
        "stats"@, "already_submitted"@, "recommended"@]
    &&& r.field_str("id"@) == Some(e.id@)
    &&& r.field_str("asset"@) == Some(e.asset@)
    &&& r.field_str("window"@) == Some(e.window@)
    &&& r.field_str("question"@) == Some(e.question@)
    &&& r.field_i64("closes_in_seconds"@) == Some(e.closes_in)
    &&& r.field_str("close_at"@) == Some(e.close_at@)
    &&& r.get_spec("stats"@) is Some
    &&& keys_of(r.get_spec("stats"@).unwrap()) == seq!["up_tickets"@, "down_tickets"@, "participant_count"@, "prediction_count"@]
    &&& r.get_spec("stats"@).unwrap().field_i64("up_tickets"@) == Some(e.up_tickets)
    &&& r.get_spec("stats"@).unwrap().field_i64("down_tickets"@) == Some(e.down_tickets)
    &&& r.get_spec("stats"@).unwrap().field_i64("participant_count"@) == Some(e.participant_count)
    &&& r.get_spec("stats"@).unwrap().field_i64("prediction_count"@) == Some(e.prediction_count)
    &&& r.field_bool("already_submitted"@) == Some(e.already_submitted)
    &&& r.field_bool("recommended"@) == Some(recommended)
}

fn stats_json(e: &MarketEntry) -> (r: Json)
    ensures
        keys_of(r) == seq!["up_tickets"@, "down_tickets"@, "participant_count"@, "prediction_count"@],
        r.field_i64("up_tickets"@) == Some(e.up_tickets),
        r.field_i64("down_tickets"@) == Some(e.down_tickets),
        r.field_i64("participant_count"@) == Some(e.participant_count),
        r.field_i64("prediction_count"@) == Some(e.prediction_count),
{
    proof {
        reveal_strlit("up_tickets");
        reveal_strlit("down_tickets");
        reveal_strlit("participant_count");
        reveal_strlit("prediction_count");
        assert("up_tickets"@[0] != "down_tickets"@[0] && "up_tickets"@[0] != "participant_count"@[0]);
        assert("up_tickets"@[0] != "prediction_count"@[0] && "down_tickets"@[0] != "participant_count"@[0]);
        assert("down_tickets"@[0] != "prediction_count"@[0] && "participant_count"@[1] != "prediction_count"@[1]);
        reveal_with_fuel(json::member_index_from, 5);
    }
    let r = Json::Object(vec![
        (text::to_owned_string("up_tickets"), json::jint(e.up_tickets)),
        (text::to_owned_string("down_tickets"), json::jint(e.down_tickets)),
        (text::to_owned_string("participant_count"), json::jint(e.participant_count)),
        (text::to_owned_string("prediction_count"), json::jint(e.prediction_count)),
    ]);
    assert(keys_of(r) =~= seq!["up_tickets"@, "down_tickets"@, "participant_count"@, "prediction_count"@]);
    r
}

/// The annotated market object for `e`.
pub fn market_json(e: &MarketEntry, recommended: bool) -> (r: Json)
    ensures
        market_json_ok(r, *e, recommended),
{
    let stats = stats_json(e);
    proof {
        reveal_strlit("id");
        reveal_strlit("asset");
        reveal_strlit("window");
        reveal_strlit("question");
        reveal_strlit("closes_in_seconds");
        reveal_strlit("close_at");
        reveal_strlit("stats");
        reveal_strlit("already_submitted");
        reveal_strlit("recommended");
        let ks = seq!["id"@, "asset"@, "window"@, "question"@, "closes_in_seconds"@, "close_at"@,
            "stats"@, "already_submitted"@, "recommended"@];
        assert("closes_in_seconds"@[5] != "close_at"@[5]);
        assert("asset"@[1] != "already_submitted"@[1]);
        assert forall|a: int, b: int| 0 <= a < b < 9 implies ks[a] != ks[b] by {
            if !(a == 4 && b == 5) && !(a == 1 && b == 7) {
                assert(ks[a][0] != ks[b][0]);
            }
        }
        reveal_with_fuel(json::member_index_from, 10);
    }
    let r = Json::Object(vec![
        (text::to_owned_string("id"), json::jstr(e.id.as_str())),
        (text::to_owned_string("asset"), json::jstr(e.asset.as_str())),
        (text::to_owned_string("window"), json::jstr(e.window.as_str())),
        (text::to_owned_string("question"), json::jstr(e.question.as_str())),
        (text::to_owned_string("closes_in_seconds"), json::jint(e.closes_in)),
        (text::to_owned_string("close_at"), json::jstr(e.close_at.as_str())),
        (text::to_owned_string("stats"), stats),
        (text::to_owned_string("already_submitted"), Json::Bool(e.already_submitted)),
        (text::to_owned_string("recommended"), Json::Bool(recommended)),
    ]);
    assert(keys_of(r) =~= seq!["id"@, "asset"@, "window"@, "question"@, "closes_in_seconds"@, "close_at"@,
        "stats"@, "already_submitted"@, "recommended"@]);
    r
}


/// `es` holds, in order, what the context keeps of each market of `ms` that
/// is kept at the instant `now`.
pub open spec fn entries_of(ms: Seq<Json>, now_secs: i64, now_nanos: u32, submitted: Seq<Seq<char>>, es: Seq<MarketEntry>) -> bool
    decreases ms.len(),
{
    if ms.len() == 0 {
        es.len() == 0
    } else if kept(ms.last(), now_secs, now_nanos) {
        &&& es.len() > 0
        &&& entry_of(ms.last(), now_secs, now_nanos, submitted, es.last())
        &&& entries_of(ms.drop_last(), now_secs, now_nanos, submitted, es.drop_last())
    } else {
        entries_of(ms.drop_last(), now_secs, now_nanos, submitted, es)
    }
}

/// What the context keeps of the active markets `ms` at the instant `now`,
/// in their order: the markets that have an id, a parseable closing time and
/// have not closed yet.
pub fn market_entries(ms: &Vec<Json>, now_secs: i64, now_nanos: u32, submitted: &Vec<String>) -> (r: Vec<MarketEntry>)
    ensures
        entries_of(ms@, now_secs, now_nanos, views(submitted@), r@),
{
    let mut out: Vec<MarketEntry> = Vec::new();
    let mut i: usize = 0;
    while i < ms.len()
        invariant
            i <= ms@.len(),
            entries_of(ms@.take(i as int), now_secs, now_nanos, views(submitted@), out@),
        decreases ms@.len() - i,
    {
        let ghost before = out@;
        assert(ms@.take(i + 1).drop_last() == ms@.take(i as int));
        assert(ms@.take(i + 1).last() == ms@[i as int]);
        match market_entry(&ms[i], now_secs, now_nanos, submitted) {
            Some(e) => {
                out.push(e);
                assert(out@.drop_last() == before);
            },
            None => {},
        }
        i = i + 1;
    }
    assert(ms@.take(ms@.len() as int) == ms@);
    out
}

/// The context's output: the agent's status, the annotated markets, the
/// candles of the recommended market and the recommendation, with the next
/// step for the agent.
pub fn context_output(agent: Json, markets: Vec<Json>, klines: Json, ids: Vec<String>) -> (r: Output)
    ensures
        r.is_success(context_message_spec(views(ids@))),
        keys_of(r.data_spec()) == seq!["agent"@, "markets"@, "klines"@, "recommendation"@],
        r.data_spec().get_spec("agent"@) == Some(agent),
        r.data_spec().get_spec("markets"@) == Some(Json::Array(markets)),
        r.data_spec().get_spec("klines"@) == Some(klines),
        recommendation_ok(r.data_spec().get_spec("recommendation"@).unwrap(), views(ids@)),
        r._internal.next_action@ == action_spec(views(ids@)),
        r._internal.next_command is Some && r._internal.next_command.unwrap()@ == next_command_spec(views(ids@)),
        r._internal.wait_seconds == (if ids@.len() == 0 { Some(300u64) } else { None }),
        (ids@.len() == 0) == (r._internal.submittable_markets is None),
        r._internal.submittable_markets is Some ==> r._internal.submittable_markets.unwrap()@ == ids@,
        r._internal.context is None,
        r._internal.progress is None,
        r._internal.options is None,
{
    let rec = recommendation(&ids);
    let empty = ids.len() == 0;
    let mut msg: Vec<char> = Vec::new();
    let mut cmd: Vec<char> = Vec::new();
    if empty {
        text::push_str(&mut msg, "No submittable markets (all submitted or closing too soon). Wait for new markets.");
        text::push_str(&mut cmd, "predict-agent context");
    } else {
        text::push_u64(&mut msg, ids.len() as u64);
        text::push_str(&mut msg, " submittable markets. Recommended: ");
        text::push_str(&mut msg, ids[0].as_str());
        text::push_str(&mut msg, ".");
        text::push_str(&mut cmd, "predict-agent submit --market ");
        text::push_str(&mut cmd, ids[0].as_str());
        text::push_str(&mut cmd, " --prediction <up|down> --tickets <N> --reasoning \"<your analysis>\"");
    }
    proof {
        assert(views(ids@).len() == ids@.len());
        if !empty {
            assert(views(ids@)[0] == ids@[0]@);
        }
        reveal_strlit("agent");
        reveal_strlit("markets");
        reveal_strlit("klines");
        reveal_strlit("recommendation");
        assert("agent"@[0] != "markets"@[0] && "agent"@[0] != "klines"@[0] && "agent"@[0] != "recommendation"@[0]);
        assert("markets"@[0] != "klines"@[0] && "markets"@[0] != "recommendation"@[0] && "klines"@[0] != "recommendation"@[0]);
        reveal_with_fuel(json::member_index_from, 5);
    }
    let internal = Internal {
        next_action: text::to_owned_string(if empty { "wait" } else { "submit" }),
        next_command: Some(text::string_of(&cmd)),
        wait_seconds: if empty { Some(300) } else { None },
        submittable_markets: if empty { None } else { Some(ids) },
        context: None,
        progress: None,
        options: None,
    };
    let data = Json::Object(vec![
        (text::to_owned_string("agent"), agent),
        (text::to_owned_string("markets"), Json::Array(markets)),
        (text::to_owned_string("klines"), klines),
        (text::to_owned_string("recommendation"), rec),
    ]);
    assert(keys_of(data) =~= seq!["agent"@, "markets"@, "klines"@, "recommendation"@]);
    Output::success(text::string_of(&msg), data, internal)
}

/// Which fetch of the context failed.
#[derive(Debug, PartialEq)]
pub enum ContextPhase {
    AgentStatus,
    Markets,
}

/// The output when a fetch of the context fails: which one, and the error
/// as `Display` prints it (`err`) and with its causes (`chain`).
pub fn context_failure(phase: ContextPhase, server_url: &str, err: &str, chain: &str) -> (r: Output)
    ensures
        r.is_failure(
            match phase {
                ContextPhase::AgentStatus => "Failed to fetch agent status: "@,
                ContextPhase::Markets => "Failed to fetch markets: "@,
            } + err@,
            match phase {
                ContextPhase::AgentStatus => "STATUS_FAILED"@,
                ContextPhase::Markets => "MARKETS_FAILED"@,
            },
            "network"@,
            true,
            "Check coordinator connectivity and retry."@,
        ),
        keys_of(r.debug_spec()) == seq!["phase"@, "server_url"@, "error_detail"@, "error_chain"@],
        r.debug_spec().field_str("phase"@) == Some(match phase {
            ContextPhase::AgentStatus => "fetch_agent_status"@,
            ContextPhase::Markets => "fetch_markets"@,
        }),
        r.debug_spec().field_str("server_url"@) == Some(server_url@),
        r.debug_spec().field_str("error_detail"@) == Some(err@),
        r.debug_spec().field_str("error_chain"@) == Some(chain@),
        r._internal.is_hint("retry"@, Some("predict-agent context"@), Some(10u64)),
{
    let (prefix, code, phase_name) = match phase {
        ContextPhase::AgentStatus => ("Failed to fetch agent status: ", "STATUS_FAILED", "fetch_agent_status"),
        ContextPhase::Markets => ("Failed to fetch markets: ", "MARKETS_FAILED", "fetch_markets"),
    };
    proof {
        reveal_strlit("phase");
        reveal_strlit("server_url");
        reveal_strlit("error_detail");
        reveal_strlit("error_chain");
        assert("phase"@[0] != "server_url"@[0] && "phase"@[0] != "error_detail"@[0] && "phase"@[0] != "error_chain"@[0]);
        assert("server_url"@[0] != "error_detail"@[0] && "server_url"@[0] != "error_chain"@[0]);
        assert("error_detail"@[6] != "error_chain"@[6]);
        reveal_with_fuel(json::member_index_from, 5);
    }
    let debug = Json::Object(vec![
        (text::to_owned_string("phase"), json::jstr(phase_name)),
        (text::to_owned_string("server_url"), json::jstr(server_url)),
        (text::to_owned_string("error_detail"), json::jstr(err)),
        (text::to_owned_string("error_chain"), json::jstr(chain)),
    ]);
    assert(keys_of(debug) =~= seq!["phase"@, "server_url"@, "error_detail"@, "error_chain"@]);
    Output::error_with_debug(
        text::concat2(prefix, err),
        text::to_owned_string(code),
        text::to_owned_string("network"),
        true,
        text::to_owned_string("Check coordinator connectivity and retry."),
        debug,
        Internal::hint("retry", Some(text::to_owned_string("predict-agent context")), Some(10)),
    )
}


/// The recommended market (the first of an urgency order) is one the agent
/// can still predict on, and no market open to it closes sooner; there is no
/// recommendation exactly when no market is open to it.
pub proof fn lemma_recommendation_most_urgent(es: Seq<MarketEntry>, order: Seq<usize>)
    requires
        is_urgency_order(es, order),
    ensures
        order.len() == 0 <==> (forall|i: int| 0 <= i < es.len() ==> !submittable(#[trigger] es[i])),
        order.len() > 0 ==> submittable(es[order[0] as int]),
        order.len() > 0 ==> forall|i: int| 0 <= i < es.len() && submittable(#[trigger] es[i])
            ==> es[order[0] as int].closes_in <= es[i].closes_in,
{
    if order.len() == 0 {
        assert forall|i: int| 0 <= i < es.len() implies !submittable(#[trigger] es[i]) by {
            if submittable(es[i]) {
                assert(listed(order, i));
            }
        }
    } else {
        assert(order[0] < es.len());
        assert(!(forall|i: int| 0 <= i < es.len() ==> !submittable(#[trigger] es[i]))) by {
            assert(submittable(es[order[0] as int]));
        }
        assert forall|i: int| 0 <= i < es.len() && submittable(#[trigger] es[i])
            implies es[order[0] as int].closes_in <= es[i].closes_in by {
            assert(listed(order, i));
            let k = choose|k: int| 0 <= k < order.len() && order[k] as int == i;
            if k > 0 {
                assert(before(es, order[0] as int, order[k] as int));
            }
        }
    }
}


proof fn lemma_orders_agree_on_prefix(es: Seq<MarketEntry>, o1: Seq<usize>, o2: Seq<usize>, k: int)
    requires
        is_urgency_order(es, o1),
        is_urgency_order(es, o2),
        0 <= k <= o1.len(),
        k <= o2.len(),
    ensures
        forall|j: int| 0 <= j < k ==> o1[j] == o2[j],
    decreases k,
{
    if k > 0 {
        lemma_orders_agree_on_prefix(es, o1, o2, k - 1);
        let a = o1[k - 1];
        let b = o2[k - 1];
        assert(submittable(es[a as int]) && submittable(es[b as int]));
        assert(listed(o2, a as int));
        assert(listed(o1, b as int));
        let p = choose|p: int| 0 <= p < o2.len() && o2[p] as int == a as int;
        let q = choose|q: int| 0 <= q < o1.len() && o1[q] as int == b as int;
        if p < k - 1 {
            assert(o1[p] == o2[p]);
            assert(before(es, o1[p] as int, o1[k - 1] as int));
        }
        if q < k - 1 {
            assert(o1[q] == o2[q]);
            assert(before(es, o2[q] as int, o2[k - 1] as int));
        }
        if p > k - 1 && q > k - 1 {
            assert(before(es, o2[k - 1] as int, o2[p] as int));
            assert(before(es, o1[k - 1] as int, o1[q] as int));
        }
    }
}

/// A list of markets has exactly one urgency order: two orders that both
/// list exactly its submittable markets, most urgent first with ties in list
/// order, are the same.
pub proof fn lemma_urgency_order_unique(es: Seq<MarketEntry>, o1: Seq<usize>, o2: Seq<usize>)
    requires
        is_urgency_order(es, o1),
        is_urgency_order(es, o2),
    ensures
        o1 == o2,
{
    let m = if o1.len() <= o2.len() { o1.len() as int } else { o2.len() as int };
    lemma_orders_agree_on_prefix(es, o1, o2, m);
    if o1.len() < o2.len() {
        let x = o2[m];
        assert(submittable(es[x as int]));
        assert(listed(o1, x as int));
        let p = choose|p: int| 0 <= p < o1.len() && o1[p] as int == x as int;
        assert(o1[p] == o2[p]);
        assert(before(es, o2[p] as int, o2[m] as int));
    } else if o2.len() < o1.len() {
        let x = o1[m];
        assert(submittable(es[x as int]));
        assert(listed(o2, x as int));
        let p = choose|p: int| 0 <= p < o2.len() && o2[p] as int == x as int;
        assert(o1[p] == o2[p]);
        assert(before(es, o1[p] as int, o1[m] as int));
    }
    assert(o1 =~= o2);
}

} // verus!
