//! The parts of the language-model prompt that the loop builds from the
//! agent's state and the server's recommendations: persona guidance, the
//! submission budget, open orders, recent results, the recommended market
//! and the other candidates.
use vstd::prelude::*;
use crate::context;
use crate::json::{self, Json, or_default};
use crate::text::{self, dec_int, dec_nat, uppercase};

verus! {

// ---------------------------------------------------------------------------
// Persona
// ---------------------------------------------------------------------------

/// The opening line, naming the persona unless it is `none`.
pub open spec fn persona_intro_spec(persona: Seq<char>) -> Seq<char> {
    "You are a prediction agent competing in AWP Predict WorkNet"@
        + (if persona != "none"@ { " (persona: "@ + persona + ")"@ } else { Seq::empty() }) + ".\n\n"@
}

/// The opening line of the prompt.
pub fn persona_intro(persona: &str) -> (r: String)
    ensures
        r@ == persona_intro_spec(persona@),
{
    let mut v = text::chars_of("You are a prediction agent competing in AWP Predict WorkNet");
    if !json::eq_str(persona, "none") {
        text::push_str(&mut v, " (persona: ");
        text::push_str(&mut v, persona);
        text::push_str(&mut v, ")");
    }
    text::push_str(&mut v, ".\n\n");
    text::string_of(&v)
}

/// The sizing style of the four personas that have one.
pub open spec fn persona_style_spec(persona: Seq<char>) -> Seq<char> {
    if persona == "degen"@ {
        "**Your style (degen):** Go big or go home. Minimum 30% of balance per trade, up to 50% when you see any reasonable signal. Never skip \u{2014} always find a trade. You're here to make moves, not to watch from the sidelines.\n\n"@
    } else if persona == "sniper"@ {
        "**Your style (sniper):** Quality over quantity. When you DO submit, commit 25-40% of balance. If the signal isn't crystal clear, skip and wait for a better setup. But when you pull the trigger, make it count.\n\n"@
    } else if persona == "conservative"@ {
        "**Your style (conservative):** Capital preservation first. Keep positions at 5-15% of balance. Only trade on strong, clear signals. It's fine to skip rounds when uncertain.\n\n"@
    } else if persona == "contrarian"@ {
        "**Your style (contrarian):** Fade the crowd. When implied_up_prob is extreme (>0.80 or <0.20), bet the opposite direction with 20-35% of balance. The crowd is often wrong at extremes.\n\n"@
    } else {
        Seq::empty()
    }
}

/// The sizing style of the persona (empty for the others).
pub fn persona_style(persona: &str) -> (r: &'static str)
    ensures
        r@ == persona_style_spec(persona@),
{
    proof {
        reveal_strlit("");
        reveal_strlit("degen");
        reveal_strlit("sniper");
        reveal_strlit("conservative");
        reveal_strlit("contrarian");
        assert("degen"@[0] != "sniper"@[0] && "degen"@[0] != "conservative"@[0] && "degen"@[0] != "contrarian"@[0]);
        assert("sniper"@[0] != "conservative"@[0] && "sniper"@[0] != "contrarian"@[0]);
        assert("conservative"@[3] != "contrarian"@[3]);
    }
    if json::eq_str(persona, "degen") {
        "**Your style (degen):** Go big or go home. Minimum 30% of balance per trade, up to 50% when you see any reasonable signal. Never skip \u{2014} always find a trade. You're here to make moves, not to watch from the sidelines.\n\n"
    } else if json::eq_str(persona, "sniper") {
        "**Your style (sniper):** Quality over quantity. When you DO submit, commit 25-40% of balance. If the signal isn't crystal clear, skip and wait for a better setup. But when you pull the trigger, make it count.\n\n"
    } else if json::eq_str(persona, "conservative") {
        "**Your style (conservative):** Capital preservation first. Keep positions at 5-15% of balance. Only trade on strong, clear signals. It's fine to skip rounds when uncertain.\n\n"
    } else if json::eq_str(persona, "contrarian") {
        "**Your style (contrarian):** Fade the crowd. When implied_up_prob is extreme (>0.80 or <0.20), bet the opposite direction with 20-35% of balance. The crowd is often wrong at extremes.\n\n"
    } else {
        ""
    }
}

// ---------------------------------------------------------------------------
// Submission budget
// ---------------------------------------------------------------------------

/// How many submissions are left in the timeslot, with matching urgency.
pub open spec fn submissions_line_spec(remaining: i64) -> Seq<char> {
    if remaining > 0 {
        "- **Submissions remaining: "@ + dec_int(remaining as int) + "/3** \u{2014} "@ + if remaining == 3 {
            "use all 3 before timeslot ends!\n"@
        } else if remaining == 2 {
            "2 left, keep submitting!\n"@
        } else {
            "last chance this timeslot!\n"@
        }
    } else {
        "- Submissions: 0/3 remaining \u{2014} wait for next timeslot\n"@
    }
}

/// The line on the submissions left in the timeslot.
pub fn submissions_line(remaining: i64) -> (r: String)
    ensures
        r@ == submissions_line_spec(remaining),
{
    let mut v: Vec<char> = Vec::new();
    if remaining > 0 {
        text::push_str(&mut v, "- **Submissions remaining: ");
        text::push_i64(&mut v, remaining);
        text::push_str(&mut v, "/3** \u{2014} ");
        if remaining == 3 {
            text::push_str(&mut v, "use all 3 before timeslot ends!\n");
        } else if remaining == 2 {
            text::push_str(&mut v, "2 left, keep submitting!\n");
        } else {
            text::push_str(&mut v, "last chance this timeslot!\n");
        }
    } else {
        text::push_str(&mut v, "- Submissions: 0/3 remaining \u{2014} wait for next timeslot\n");
    }
    text::string_of(&v)
}

/// When the timeslot resets: minutes only when more than ten are left,
/// minutes and seconds otherwise, and an urgent call to submit in the last
/// four minutes while submissions are left.  Nothing when it resets now.
pub open spec fn timeslot_line_spec(resets_in: u64, remaining: i64) -> Seq<char> {
    let mins = dec_nat((resets_in / 60) as nat);
    let secs = dec_nat((resets_in % 60) as nat);
    if resets_in == 0 {
        Seq::empty()
    } else if resets_in / 60 > 10 {
        "- Timeslot resets in "@ + mins + "m\n"@
    } else if resets_in / 60 > 3 || remaining <= 0 {
        "- Timeslot resets in "@ + mins + "m"@ + secs + "s\n"@
    } else {
        "- **URGENT: "@ + mins + "m"@ + secs + "s left! Submit NOW or lose "@ + dec_int(remaining as int)
            + " slot(s)!**\n"@
    }
}

/// The line on when the timeslot resets.
pub fn timeslot_line(resets_in: u64, remaining: i64) -> (r: String)
    ensures
        r@ == timeslot_line_spec(resets_in, remaining),
{
    let mut v: Vec<char> = Vec::new();
    if resets_in > 0 {
        let mins = resets_in / 60;
        let secs = resets_in % 60;
        if mins > 10 {
            text::push_str(&mut v, "- Timeslot resets in ");
            text::push_u64(&mut v, mins);
            text::push_str(&mut v, "m\n");
        } else if mins > 3 || remaining <= 0 {
            text::push_str(&mut v, "- Timeslot resets in ");
            text::push_u64(&mut v, mins);
            text::push_str(&mut v, "m");
            text::push_u64(&mut v, secs);
            text::push_str(&mut v, "s\n");
        } else {
            text::push_str(&mut v, "- **URGENT: ");
            text::push_u64(&mut v, mins);
            text::push_str(&mut v, "m");
            text::push_u64(&mut v, secs);
            text::push_str(&mut v, "s left! Submit NOW or lose ");
            text::push_i64(&mut v, remaining);
            text::push_str(&mut v, " slot(s)!**\n");
        }
    }
    text::string_of(&v)
}

// ---------------------------------------------------------------------------
// Shared helpers
// ---------------------------------------------------------------------------

/// The text member `key` of `v`, or `?`.
pub open spec fn str_or_q(v: Json, key: Seq<char>) -> Seq<char> {
    or_default(v.field_str(key), "?"@)
}

fn str_or(v: &Json, key: &str, d: &str) -> (r: String)
    ensures
        r@ == or_default(v.field_str(key@), d@),
{
    match v.field_str_exec(key) {
        Some(s) => text::to_owned_string(s),
        None => text::to_owned_string(d),
    }
}

fn i64_or_zero(v: &Json, key: &str) -> (r: i64)
    ensures
        r == or_default(v.field_i64(key@), 0),
{
    match v.field_i64_exec(key) {
        Some(i) => i,
        None => 0,
    }
}


// ---------------------------------------------------------------------------
// Open orders and recent results
// ---------------------------------------------------------------------------

/// How much of an order is matched.
pub open spec fn fill_label(filled: i64, tickets: i64) -> Seq<char> {
    if filled == tickets {
        "FILLED"@
    } else if filled > 0 {
        "PARTIAL"@
    } else {
        "PENDING"@
    }
}

/// One open order: market, direction, fill state and closing time.
pub open spec fn order_line_spec(o: Json) -> Seq<char> {
    let tickets = or_default(o.field_i64("tickets"@), 0);
    let filled = or_default(o.field_i64("tickets_filled"@), 0);
    "- "@ + str_or_q(o, "asset"@) + " "@ + str_or_q(o, "window"@) + " "@ + uppercase(str_or_q(o, "direction"@))
        + " \u{2014} "@ + fill_label(filled, tickets) + " "@ + dec_int(filled as int) + "/"@ + dec_int(tickets as int)
        + " tickets, closes "@ + str_or_q(o, "close_at"@) + "\n"@
}

/// The line on one open order.
pub fn order_line(o: &Json) -> (r: String)
    ensures
        r@ == order_line_spec(*o),
{
    let tickets = i64_or_zero(o, "tickets");
    let filled = i64_or_zero(o, "tickets_filled");
    let label = if filled == tickets {
        "FILLED"
    } else if filled > 0 {
        "PARTIAL"
    } else {
        "PENDING"
    };
    let mut v = text::chars_of("- ");
    text::push_str(&mut v, str_or(o, "asset", "?").as_str());
    text::push_str(&mut v, " ");
    text::push_str(&mut v, str_or(o, "window", "?").as_str());
    text::push_str(&mut v, " ");
    text::push_str(&mut v, text::to_uppercase(str_or(o, "direction", "?").as_str()).as_str());
    text::push_str(&mut v, " \u{2014} ");
    text::push_str(&mut v, label);
    text::push_str(&mut v, " ");
    text::push_i64(&mut v, filled);
    text::push_str(&mut v, "/");
    text::push_i64(&mut v, tickets);
    text::push_str(&mut v, " tickets, closes ");
    text::push_str(&mut v, str_or(o, "close_at", "?").as_str());
    text::push_str(&mut v, "\n");
    text::string_of(&v)
}

/// The concatenated lines `line(xs[i])` for the first `n` items.
pub open spec fn lines_of(xs: Seq<Json>, n: int, line: spec_fn(Json) -> Seq<char>) -> Seq<char>
    decreases n,
{
    if n <= 0 || xs.len() == 0 {
        Seq::empty()
    } else if n > xs.len() {
        lines_of(xs, xs.len() as int, line)
    } else {
        lines_of(xs, n - 1, line) + line(xs[n - 1])
    }
}

/// The lines on the first ten open orders.
pub fn order_lines(orders: &Vec<Json>) -> (r: String)
    ensures
        r@ == lines_of(orders@, 10, |o: Json| order_line_spec(o)),
{
    let n: usize = if orders.len() < 10 { orders.len() } else { 10 };
    let mut v: Vec<char> = Vec::new();
    let mut i: usize = 0;
    while i < n
        invariant
            i <= n <= orders@.len(),
            n == (if orders@.len() < 10 { orders@.len() } else { 10 }),
            v@ == lines_of(orders@, i as int, |o: Json| order_line_spec(o)),
        decreases n - i,
    {
        text::push_str(&mut v, order_line(&orders[i]).as_str());
        i = i + 1;
    }
    proof {
        if orders@.len() < 10 && orders@.len() > 0 {
            assert(lines_of(orders@, 10, |o: Json| order_line_spec(o)) == lines_of(orders@, orders@.len() as int, |o: Json| order_line_spec(o)));
        }
    }
    text::string_of(&v)
}

/// A recent result was won.
pub open spec fn won(r: Json) -> bool {
    r.field_bool("won"@) == Some(true)
}

/// How many of `rs` were won.
pub open spec fn wins(rs: Seq<Json>) -> nat
    decreases rs.len(),
{
    if rs.len() == 0 {
        0
    } else {
        wins(rs.drop_last()) + if won(rs.last()) { 1nat } else { 0nat }
    }
}

/// One recent result: market, direction, won or lost, payout and stake.
pub open spec fn result_line_spec(r: Json) -> Seq<char> {
    "- "@ + str_or_q(r, "asset"@) + " "@ + str_or_q(r, "window"@) + " "@ + uppercase(str_or_q(r, "direction"@))
        + " \u{2014} "@ + (if won(r) { "WON"@ } else { "LOST"@ }) + " (payout: "@
        + dec_int(or_default(r.field_i64("payout_chips"@), 0) as int) + ", spent: "@
        + dec_int(or_default(r.field_i64("chips_spent"@), 0) as int) + ")\n"@
}

/// The recent-results section: the count and wins, then the first five.
pub open spec fn recent_results_spec(rs: Seq<Json>) -> Seq<char> {
    if rs.len() == 0 {
        Seq::empty()
    } else {
        "\n**Recent results (last "@ + dec_nat(rs.len()) + ", "@ + dec_nat(wins(rs)) + " wins):**\n"@
            + lines_of(rs, 5, |r: Json| result_line_spec(r))
    }
}

fn result_line(r: &Json) -> (s: String)
    ensures
        s@ == result_line_spec(*r),
{
    let is_won = match r.field_bool_exec("won") {
        Some(b) => b,
        None => false,
    };
    let mut v = text::chars_of("- ");
    text::push_str(&mut v, str_or(r, "asset", "?").as_str());
    text::push_str(&mut v, " ");
    text::push_str(&mut v, str_or(r, "window", "?").as_str());
    text::push_str(&mut v, " ");
    text::push_str(&mut v, text::to_uppercase(str_or(r, "direction", "?").as_str()).as_str());
    text::push_str(&mut v, " \u{2014} ");
    text::push_str(&mut v, if is_won { "WON" } else { "LOST" });
    text::push_str(&mut v, " (payout: ");
    text::push_i64(&mut v, i64_or_zero(r, "payout_chips"));
    text::push_str(&mut v, ", spent: ");
    text::push_i64(&mut v, i64_or_zero(r, "chips_spent"));
    text::push_str(&mut v, ")\n");
    text::string_of(&v)
}

/// The section on the agent's recent results (empty without any).
pub fn recent_results(rs: &Vec<Json>) -> (r: String)
    ensures
        r@ == recent_results_spec(rs@),
{
    if rs.len() == 0 {
        return String::new();
    }
    let mut count: u64 = 0;
    let mut i: usize = 0;
    while i < rs.len()
        invariant
            i <= rs@.len(),
            count == wins(rs@.take(i as int)),
            count <= i,
        decreases rs@.len() - i,
    {
        assert(rs@.take(i + 1).drop_last() == rs@.take(i as int));
        let w = match rs[i].field_bool_exec("won") {
            Some(b) => b,
            None => false,
        };
        if w {
            count = count + 1;
        }
        i = i + 1;
    }
    assert(rs@.take(rs@.len() as int) == rs@);
    let mut v = text::chars_of("\n**Recent results (last ");
    text::push_u64(&mut v, rs.len() as u64);
    text::push_str(&mut v, ", ");
    text::push_u64(&mut v, count);
    text::push_str(&mut v, " wins):**\n");
    let n: usize = if rs.len() < 5 { rs.len() } else { 5 };
    let ghost head = v@;
    let mut k: usize = 0;
    while k < n
        invariant
            k <= n <= rs@.len(),
            n == (if rs@.len() < 5 { rs@.len() } else { 5 }),
            v@ == head + lines_of(rs@, k as int, |r: Json| result_line_spec(r)),
        decreases n - k,
    {
        text::push_str(&mut v, result_line(&rs[k]).as_str());
        assert(v@ =~= head + lines_of(rs@, k + 1, |r: Json| result_line_spec(r)));
        k = k + 1;
    }
    proof {
        if rs@.len() < 5 {
            assert(lines_of(rs@, 5, |r: Json| result_line_spec(r)) == lines_of(rs@, rs@.len() as int, |r: Json| result_line_spec(r)));
        }
    }
    text::string_of(&v)
}


// ---------------------------------------------------------------------------
// The recommended market
// ---------------------------------------------------------------------------

/// The seconds until the recommended market closes: `seconds_to_close` when
/// the server gave it, else computed from `close_at` at the instant `now`
/// (never below 0), else 0.
pub open spec fn closes_in_spec(rec: Json, now_secs: i64, now_nanos: u32) -> i64 {
    match rec.field_i64("seconds_to_close"@) {
        Some(s) => s,
        None => match rec.field_str("close_at"@) {
            Some(c) => match context::seconds_until(c, now_secs, now_nanos) {
                Some(d) => if d > 0 { d } else { 0 },
                None => 0,
            },
            None => 0,
        },
    }
}

/// The seconds until the recommended market closes.
pub fn closes_in(rec: &Json, now_secs: i64, now_nanos: u32) -> (r: i64)
    ensures
        r == closes_in_spec(*rec, now_secs, now_nanos),
{
    if let Some(s) = rec.field_i64_exec("seconds_to_close") {
        return s;
    }
    if let Some(c) = rec.field_str_exec("close_at") {
        if let Some(d) = context::seconds_until_exec(c, now_secs, now_nanos) {
            return if d > 0 { d } else { 0 };
        }
    }
    0
}

/// The asset of the recommended market (`BTC/USDT` when absent).
pub open spec fn asset_spec(rec: Json) -> Seq<char> {
    or_default(rec.field_str("asset"@), "BTC/USDT"@)
}

/// The head of the recommended-market section: id, asset, window
/// (`15m` when absent) and time left.
pub open spec fn market_head_spec(market_id: Seq<char>, rec: Json, closes_in: i64) -> Seq<char> {
    "## Recommended Market\n\n- ID: "@ + market_id + "\n- Asset: "@ + asset_spec(rec) + "\n- Window: "@
        + or_default(rec.field_str("window"@), "15m"@) + "\n- Closes in: "@ + dec_int(closes_in as int) + "s\n"@
}

/// The head of the recommended-market section.
pub fn market_head(market_id: &str, rec: &Json, closes_in: i64) -> (r: String)
    ensures
        r@ == market_head_spec(market_id@, *rec, closes_in),
{
    let mut v = text::chars_of("## Recommended Market\n\n- ID: ");
    text::push_str(&mut v, market_id);
    text::push_str(&mut v, "\n- Asset: ");
    text::push_str(&mut v, str_or(rec, "asset", "BTC/USDT").as_str());
    text::push_str(&mut v, "\n- Window: ");
    text::push_str(&mut v, str_or(rec, "window", "15m").as_str());
    text::push_str(&mut v, "\n- Closes in: ");
    text::push_i64(&mut v, closes_in);
    text::push_str(&mut v, "s\n");
    text::string_of(&v)
}

/// The server's reason and the side that liquidity favors, when given
/// (a suggested side of `skip` is left out).
pub open spec fn server_hints_spec(rec: Json) -> Seq<char> {
    (match rec.field_str("reason"@) {
        Some(r) => "- Server insight: "@ + r + "\n"@,
        None => Seq::empty(),
    }) + (match rec.field_str("suggested_side"@) {
        Some(side) => if side != "skip"@ {
            "- Liquidity favors: "@ + uppercase(side) + " (counterparty orders waiting)\n"@
        } else {
            Seq::empty()
        },
        None => Seq::empty(),
    })
}

/// The lines on the server's reason and the side that liquidity favors.
pub fn server_hints(rec: &Json) -> (r: String)
    ensures
        r@ == server_hints_spec(*rec),
{
    let mut v: Vec<char> = Vec::new();
    if let Some(reason) = rec.field_str_exec("reason") {
        text::push_str(&mut v, "- Server insight: ");
        text::push_str(&mut v, reason);
        text::push_str(&mut v, "\n");
    }
    if let Some(side) = rec.field_str_exec("suggested_side") {
        if !json::eq_str(side, "skip") {
            text::push_str(&mut v, "- Liquidity favors: ");
            text::push_str(&mut v, text::to_uppercase(side).as_str());
            text::push_str(&mut v, " (counterparty orders waiting)\n");
        }
    }
    text::string_of(&v)
}

/// The best prices of the order book `ob`, when it quotes either side.
pub open spec fn best_prices_spec(ob: Json) -> Seq<char> {
    let up = ob.field_str("best_up_price"@);
    let down = ob.field_str("best_down_price"@);
    if up is None && down is None {
        Seq::empty()
    } else {
        "- **Best prices available:**\n"@ + (match up {
            Some(p) => "  - Buy UP: "@ + p + " (bid at this price to get filled)\n"@,
            None => "  - Buy UP: no orders (your order will wait for counterparty)\n"@,
        }) + (match down {
            Some(p) => "  - Buy DOWN: "@ + p + " (bid at this price to get filled)\n"@,
            None => "  - Buy DOWN: no orders (your order will wait for counterparty)\n"@,
        })
    }
}

/// The lines on the best prices of the order book `ob`.
pub fn best_prices(ob: &Json) -> (r: String)
    ensures
        r@ == best_prices_spec(*ob),
{
    let up = ob.field_str_exec("best_up_price");
    let down = ob.field_str_exec("best_down_price");
    let mut v: Vec<char> = Vec::new();
    if up.is_some() || down.is_some() {
        text::push_str(&mut v, "- **Best prices available:**\n");
        match up {
            Some(p) => {
                text::push_str(&mut v, "  - Buy UP: ");
                text::push_str(&mut v, p);
                text::push_str(&mut v, " (bid at this price to get filled)\n");
            },
            None => text::push_str(&mut v, "  - Buy UP: no orders (your order will wait for counterparty)\n"),
        }
        match down {
            Some(p) => {
                text::push_str(&mut v, "  - Buy DOWN: ");
                text::push_str(&mut v, p);
                text::push_str(&mut v, " (bid at this price to get filled)\n");
            },
            None => text::push_str(&mut v, "  - Buy DOWN: no orders (your order will wait for counterparty)\n"),
        }
    }
    text::string_of(&v)
}

/// The filled and open volume on each side of the order book `ob`.
pub open spec fn volume_line_spec(ob: Json) -> Seq<char> {
    "- Volume: UP filled="@ + dec_int(or_default(ob.field_i64("up_filled"@), 0) as int) + " open="@
        + dec_int(or_default(ob.field_i64("up_open"@), 0) as int) + ", DOWN filled="@
        + dec_int(or_default(ob.field_i64("down_filled"@), 0) as int) + " open="@
        + dec_int(or_default(ob.field_i64("down_open"@), 0) as int) + "\n"@
}

/// The line on the volume of the order book `ob`.
pub fn volume_line(ob: &Json) -> (r: String)
    ensures
        r@ == volume_line_spec(*ob),
{
    let mut v = text::chars_of("- Volume: UP filled=");
    text::push_i64(&mut v, i64_or_zero(ob, "up_filled"));
    text::push_str(&mut v, " open=");
    text::push_i64(&mut v, i64_or_zero(ob, "up_open"));
    text::push_str(&mut v, ", DOWN filled=");
    text::push_i64(&mut v, i64_or_zero(ob, "down_filled"));
    text::push_str(&mut v, " open=");
    text::push_i64(&mut v, i64_or_zero(ob, "down_open"));
    text::push_str(&mut v, "\n");
    text::string_of(&v)
}

/// The agent's last prediction on the asset, when the server gave one: its
/// direction, whether it won, and its reasoning, with a prompt to reflect.
pub open spec fn last_prediction_spec(rec: Json) -> Seq<char> {
    match rec.get_spec("last_prediction"@) {
        Some(lp) => if lp is Null {
            Seq::empty()
        } else {
            let outcome = or_default(lp.field_str("outcome"@), "pending"@);
            let reasoning = or_default(lp.field_str("reasoning_text"@), Seq::empty());
            "\n**Your last prediction on "@ + asset_spec(rec) + ":**\n"@ + "- Direction: "@
                + uppercase(str_or_q(lp, "direction"@)) + "\n"@ + (match lp.field_bool("won"@) {
                Some(true) => "- Result: WON (outcome was "@ + outcome + ")\n"@,
                Some(false) => "- Result: LOST (outcome was "@ + outcome + ")\n"@,
                None => "- Result: pending (market not yet resolved)\n"@,
            }) + (if reasoning.len() > 0 {
                "- Your reasoning was: \""@ + reasoning + "\"\n"@
            } else {
                Seq::empty()
            }) + "- Consider: was your thesis correct? Should you continue or reverse?\n"@
        },
        None => Seq::empty(),
    }
}

/// The section on the agent's last prediction on the asset.
pub fn last_prediction(rec: &Json) -> (r: String)
    ensures
        r@ == last_prediction_spec(*rec),
{
    let mut v: Vec<char> = Vec::new();
    if let Some(lp) = rec.get("last_prediction") {
        if !lp.is_null() {
            let outcome = str_or(lp, "outcome", "pending");
            let reasoning = str_or(lp, "reasoning_text", "");
            proof {
                reveal_strlit("");
            }
            text::push_str(&mut v, "\n**Your last prediction on ");
            text::push_str(&mut v, str_or(rec, "asset", "BTC/USDT").as_str());
            text::push_str(&mut v, ":**\n");
            text::push_str(&mut v, "- Direction: ");
            text::push_str(&mut v, text::to_uppercase(str_or(lp, "direction", "?").as_str()).as_str());
            text::push_str(&mut v, "\n");
            match lp.field_bool_exec("won") {
                Some(true) => {
                    text::push_str(&mut v, "- Result: WON (outcome was ");
                    text::push_str(&mut v, outcome.as_str());
                    text::push_str(&mut v, ")\n");
                },
                Some(false) => {
                    text::push_str(&mut v, "- Result: LOST (outcome was ");
                    text::push_str(&mut v, outcome.as_str());
                    text::push_str(&mut v, ")\n");
                },
                None => text::push_str(&mut v, "- Result: pending (market not yet resolved)\n"),
            }
            if !reasoning.as_str().is_empty() {
                text::push_str(&mut v, "- Your reasoning was: \"");
                text::push_str(&mut v, reasoning.as_str());
                text::push_str(&mut v, "\"\n");
            }
            text::push_str(&mut v, "- Consider: was your thesis correct? Should you continue or reverse?\n");
        }
    }
    text::string_of(&v)
}

// ---------------------------------------------------------------------------
// Other candidates
// ---------------------------------------------------------------------------

/// The id of a candidate market: `market_id` when present (`?` when it is
/// not text), else `id`, else `?`.
pub open spec fn candidate_id(m: Json) -> Seq<char> {
    match m.get_spec("market_id"@) {
        Some(v) => or_default(v.str_spec(), "?"@),
        None => str_or_q(m, "id"@),
    }
}

/// A short note on the agent's last prediction on a candidate, when the
/// server gave one with a direction.
pub open spec fn last_hint(m: Json) -> Seq<char> {
    match m.get_spec("last_prediction"@) {
        Some(lp) => if lp is Null {
            Seq::empty()
        } else {
            match lp.field_str("direction"@) {
                Some(d) => " [last: "@ + d + " "@ + (match lp.field_bool("won"@) {
                    Some(true) => "won"@,
                    Some(false) => "lost"@,
                    None => "pending"@,
                }) + "]"@,
                None => Seq::empty(),
            }
        },
        None => Seq::empty(),
    }
}

/// One candidate market: id, asset, window, score, suggested side, last
/// prediction, and the server's reason.
pub open spec fn candidate_line_spec(m: Json) -> Seq<char> {
    "- "@ + candidate_id(m) + " ("@ + str_or_q(m, "asset"@) + " "@ + str_or_q(m, "window"@) + ") score="@
        + dec_int(or_default(m.field_i64("score"@), 0) as int) + " suggested="@ + str_or_q(m, "suggested_side"@)
        + last_hint(m) + " \u{2014} "@ + or_default(m.field_str("reason"@), Seq::empty()) + "\n"@
}

fn candidate_line(m: &Json) -> (r: String)
    ensures
        r@ == candidate_line_spec(*m),
{
    let id = match m.get("market_id") {
        Some(x) => match x.as_str() {
            Some(t) => text::to_owned_string(t),
            None => text::to_owned_string("?"),
        },
        None => str_or(m, "id", "?"),
    };
    let mut hint: Vec<char> = Vec::new();
    if let Some(lp) = m.get("last_prediction") {
        if !lp.is_null() {
            if let Some(d) = lp.field_str_exec("direction") {
                text::push_str(&mut hint, " [last: ");
                text::push_str(&mut hint, d);
                text::push_str(&mut hint, " ");
                match lp.field_bool_exec("won") {
                    Some(true) => text::push_str(&mut hint, "won"),
                    Some(false) => text::push_str(&mut hint, "lost"),
                    None => text::push_str(&mut hint, "pending"),
                }
                text::push_str(&mut hint, "]");
            }
        }
    }
    proof {
        reveal_strlit("");
    }
    let mut v = text::chars_of("- ");
    text::push_str(&mut v, id.as_str());
    text::push_str(&mut v, " (");
    text::push_str(&mut v, str_or(m, "asset", "?").as_str());
    text::push_str(&mut v, " ");
    text::push_str(&mut v, str_or(m, "window", "?").as_str());
    text::push_str(&mut v, ") score=");
    text::push_i64(&mut v, i64_or_zero(m, "score"));
    text::push_str(&mut v, " suggested=");
    text::push_str(&mut v, str_or(m, "suggested_side", "?").as_str());
    text::push_chars(&mut v, &hint);
    text::push_str(&mut v, " \u{2014} ");
    text::push_str(&mut v, str_or(m, "reason", "").as_str());
    text::push_str(&mut v, "\n");
    text::string_of(&v)
}

/// The lines on candidates `1..=8` of `ms` (the first is the recommended one).
pub open spec fn candidate_lines(ms: Seq<Json>, k: int) -> Seq<char>
    decreases k,
{
    if k <= 1 {
        Seq::empty()
    } else {
        candidate_lines(ms, k - 1) + candidate_line_spec(ms[k - 1])
    }
}

/// The section on the other candidates, when the server ranked more than one.
pub open spec fn other_markets_spec(ms: Seq<Json>) -> Seq<char> {
    if ms.len() > 1 {
        "## Other Markets (server-ranked)\n\n"@ + candidate_lines(ms, if ms.len() < 9 { ms.len() as int } else { 9 })
            + "\nYou may choose a different market by setting \"market_id\" in your response.\n\n"@
    } else {
        Seq::empty()
    }
}

/// The section on the other candidate markets.
pub fn other_markets(ms: &[Json]) -> (r: String)
    ensures
        r@ == other_markets_spec(ms@),
{
    if ms.len() <= 1 {
        return String::new();
    }
    let end: usize = if ms.len() < 9 { ms.len() } else { 9 };
    let mut v = text::chars_of("## Other Markets (server-ranked)\n\n");
    let ghost head = v@;
    let mut k: usize = 1;
    while k < end
        invariant
            1 <= k <= end <= ms@.len(),
            v@ == head + candidate_lines(ms@, k as int),
        decreases end - k,
    {
        text::push_str(&mut v, candidate_line(&ms[k]).as_str());
        assert(v@ =~= head + candidate_lines(ms@, k + 1));
        k = k + 1;
    }
    text::push_str(&mut v, "\nYou may choose a different market by setting \"market_id\" in your response.\n\n");
    text::string_of(&v)
}

/// Where the candles shown in the prompt start among `n` candles: only the
/// latest 20 are shown, all of them when there are fewer.
pub fn kline_rows_start(n: usize) -> (r: usize)
    ensures
        r == (if n > 20 { n - 20 } else { 0 }),
        r <= n,
        n - r <= 20,
{
    if n > 20 {
        n - 20
    } else {
        0
    }
}

/// The sum of member `key` over the first `k` orders.
pub open spec fn member_sum(orders: Seq<Json>, key: Seq<char>, k: int) -> int
    decreases k,
{
    if k <= 0 {
        0
    } else {
        member_sum(orders, key, k - 1) + or_default(orders[k - 1].field_i64(key), 0)
    }
}

/// Every running sum of member `key` over the orders fits in an `i64`.
pub open spec fn running_sums_fit(orders: Seq<Json>, key: Seq<char>) -> bool {
    forall|k: int| 0 <= k <= orders.len() ==> i64::MIN <= #[trigger] member_sum(orders, key, k) <= i64::MAX
}

/// The total of member `key` over the open orders (0 for an order without
/// it), as the fill-rate line of the prompt sums `tickets` and
/// `tickets_filled`; `None` when a running total leaves the `i64` range.
pub fn member_total(orders: &[Json], key: &str) -> (r: Option<i64>)
    ensures
        r is Some <==> running_sums_fit(orders@, key@),
        r matches Some(t) ==> t == member_sum(orders@, key@, orders@.len() as int),
{
    let mut total: i64 = 0;
    let mut i: usize = 0;
    while i < orders.len()
        invariant
            i <= orders@.len(),
            total == member_sum(orders@, key@, i as int),
            forall|k: int| 0 <= k <= i ==> i64::MIN <= #[trigger] member_sum(orders@, key@, k) <= i64::MAX,
        decreases orders@.len() - i,
    {
        let x: i64 = i64_or_zero(&orders[i], key);
        assert(member_sum(orders@, key@, i + 1) == total + x);
        match total.checked_add(x) {
            Some(t) => {
                total = t;
            },
            None => {
                return None;
            },
        }
        i = i + 1;
    }
    Some(total)
}

// ---------------------------------------------------------------------------
// Assembly
// ---------------------------------------------------------------------------

/// The figures of the prompt that are computed in floating point, as text
/// the caller formatted (the fill rate as the whole percent it rounds to).
pub struct PromptFigures {
    /// The rules section, which quotes the balance.
    pub rules: String,
    /// The balance line.
    pub balance_line: String,
    /// The persona's position-sizing line.
    pub sizing_line: String,
    /// The filled share of the open orders' tickets, in whole percent.
    pub fill_rate: i64,
    /// The implied-probability line of the recommended market.
    pub implied_up_line: String,
    /// The spread line, empty when the order book gives no spread.
    pub spread_line: String,
    /// The line on what each side costs and pays.
    pub odds_line: String,
    /// The table rows of the latest candles.
    pub kline_rows: String,
}

/// The agent's state: balance, sizing, submission budget, timeslot and the
/// number of available markets.
pub open spec fn state_section_spec(f: PromptFigures, remaining: i64, resets_in: u64, market_count: nat) -> Seq<char> {
    "## Your Current State\n\n"@ + f.balance_line@ + f.sizing_line@ + submissions_line_spec(remaining)
        + timeslot_line_spec(resets_in, remaining) + "- Available markets: "@ + dec_nat(market_count) + "\n"@
}

/// The section on the agent's state.
pub fn state_section(f: &PromptFigures, remaining: i64, resets_in: u64, market_count: usize) -> (r: String)
    ensures
        r@ == state_section_spec(*f, remaining, resets_in, market_count as nat),
{
    let mut v = text::chars_of("## Your Current State\n\n");
    text::push_str(&mut v, f.balance_line.as_str());
    text::push_str(&mut v, f.sizing_line.as_str());
    text::push_str(&mut v, submissions_line(remaining).as_str());
    text::push_str(&mut v, timeslot_line(resets_in, remaining).as_str());
    text::push_str(&mut v, "- Available markets: ");
    text::push_u64(&mut v, market_count as u64);
    text::push_str(&mut v, "\n");
    text::string_of(&v)
}

/// The section on the open orders, when there are any: their count and fill
/// rate, the first ten, and what each fill status means.
pub open spec fn orders_section_spec(orders: Seq<Json>, fill_rate: i64) -> Seq<char> {
    if orders.len() == 0 {
        Seq::empty()
    } else {
        "\n**Your open orders ("@ + dec_nat(orders.len()) + ", fill rate: "@ + dec_int(fill_rate as int) + "%)**\n"@
            + lines_of(orders, 10, |o: Json| order_line_spec(o))
            + "\n**Understanding fill status:**\n- FILLED: Your chips are matched. You have real exposure and will win/lose at settlement.\n- PARTIAL: Some matched, rest waiting. Unmatched portion refunds at market close.\n- PENDING: No matches yet. Chips are locked but you have no actual exposure until matched.\n\n**CRITICAL: Do NOT bet against your open positions.**\nBetting both UP and DOWN on the same market guarantees a loss.\n\n"@
    }
}

/// The section on the open orders.
pub fn orders_section(orders: &Vec<Json>, fill_rate: i64) -> (r: String)
    ensures
        r@ == orders_section_spec(orders@, fill_rate),
{
    if orders.len() == 0 {
        return String::new();
    }
    let mut v = text::chars_of("\n**Your open orders (");
    text::push_u64(&mut v, orders.len() as u64);
    text::push_str(&mut v, ", fill rate: ");
    text::push_i64(&mut v, fill_rate);
    text::push_str(&mut v, "%)**\n");
    text::push_str(&mut v, order_lines(orders).as_str());
    text::push_str(&mut v, "\n**Understanding fill status:**\n- FILLED: Your chips are matched. You have real exposure and will win/lose at settlement.\n- PARTIAL: Some matched, rest waiting. Unmatched portion refunds at market close.\n- PENDING: No matches yet. Chips are locked but you have no actual exposure until matched.\n\n**CRITICAL: Do NOT bet against your open positions.**\nBetting both UP and DOWN on the same market guarantees a loss.\n\n");
    text::string_of(&v)
}

/// The order book quotes a best price on either side.
pub open spec fn quoted(ob: Json) -> bool {
    ob.field_str("best_up_price"@) is Some || ob.field_str("best_down_price"@) is Some
}

/// The section on the recommended market: its head, implied probability,
/// the server's hints, the order book (the spread only when a side is
/// quoted), the last prediction on it and the odds.
pub open spec fn market_section_spec(market_id: Seq<char>, rec: Json, closes_in: i64, f: PromptFigures) -> Seq<char> {
    market_head_spec(market_id, rec, closes_in) + f.implied_up_line@ + server_hints_spec(rec)
        + match rec.get_spec("orderbook"@) {
            Some(ob) => best_prices_spec(ob) + (if quoted(ob) { f.spread_line@ } else { Seq::empty() })
                + volume_line_spec(ob),
            None => Seq::empty(),
        }
        + last_prediction_spec(rec) + f.odds_line@ + "\n"@
}

/// The section on the recommended market.
pub fn market_section(market_id: &str, rec: &Json, closes_in: i64, f: &PromptFigures) -> (r: String)
    ensures
        r@ == market_section_spec(market_id@, *rec, closes_in, *f),
{
    let mut v = text::chars_of(market_head(market_id, rec, closes_in).as_str());
    text::push_str(&mut v, f.implied_up_line.as_str());
    text::push_str(&mut v, server_hints(rec).as_str());
    let ghost before_ob = v@;
    match rec.get("orderbook") {
        Some(ob) => {
            text::push_str(&mut v, best_prices(ob).as_str());
            let q = ob.field_str_exec("best_up_price").is_some() || ob.field_str_exec("best_down_price").is_some();
            if q {
                text::push_str(&mut v, f.spread_line.as_str());
            }
            text::push_str(&mut v, volume_line(ob).as_str());
            assert(v@ =~= before_ob + (best_prices_spec(*ob) + (if quoted(*ob) { f.spread_line@ } else { Seq::empty() })
                + volume_line_spec(*ob)));
        },
        None => {
            assert(v@ =~= before_ob + Seq::<char>::empty());
        },
    }
    text::push_str(&mut v, last_prediction(rec).as_str());
    text::push_str(&mut v, f.odds_line.as_str());
    text::push_str(&mut v, "\n");
    text::string_of(&v)
}

/// The candle section: a table of the latest candles when there are any,
/// else a note that none are available.
pub open spec fn kline_section_spec(count: nat, rows: Seq<char>) -> Seq<char> {
    if count > 0 {
        "## Klines ("@ + dec_nat(count) + " candles)\n\n"@ + "time | open | high | low | close | volume\n"@
            + "--- | --- | --- | --- | --- | ---\n"@ + rows + "\n"@
    } else {
        "## Klines\n\nNo kline data available. Use market data and general market awareness.\n\n"@
    }
}

/// The candle section, over `count` candles whose latest rows are `rows`.
pub fn kline_section(count: usize, rows: &str) -> (r: String)
    ensures
        r@ == kline_section_spec(count as nat, rows@),
{
    if count == 0 {
        return text::to_owned_string("## Klines\n\nNo kline data available. Use market data and general market awareness.\n\n");
    }
    let mut v = text::chars_of("## Klines (");
    text::push_u64(&mut v, count as u64);
    text::push_str(&mut v, " candles)\n\n");
    text::push_str(&mut v, "time | open | high | low | close | volume\n");
    text::push_str(&mut v, "--- | --- | --- | --- | --- | ---\n");
    text::push_str(&mut v, rows);
    text::push_str(&mut v, "\n");
    text::string_of(&v)
}

/// The whole prompt, in order: persona, rules, state, open orders, recent
/// results, the recommended market, candles and the other candidates.
pub open spec fn prompt_spec(persona: Seq<char>, market_id: Seq<char>, rec: Json, closes_in: i64, remaining: i64,
    resets_in: u64, all_markets: Seq<Json>, open_orders: Seq<Json>, recent: Seq<Json>, kline_count: nat,
    f: PromptFigures) -> Seq<char> {
    persona_intro_spec(persona) + persona_style_spec(persona) + f.rules@
        + state_section_spec(f, remaining, resets_in, all_markets.len())
        + orders_section_spec(open_orders, f.fill_rate) + recent_results_spec(recent) + "\n"@
        + market_section_spec(market_id, rec, closes_in, f) + kline_section_spec(kline_count, f.kline_rows@)
        + other_markets_spec(all_markets)
}

/// Puts the prompt together from the agent's state, the recommended market
/// and the figures the caller formatted.
pub fn assemble_prompt(persona: &str, market_id: &str, rec: &Json, closes_in: i64, remaining: i64, resets_in: u64,
    all_markets: &[Json], open_orders: &Vec<Json>, recent: &Vec<Json>, kline_count: usize, f: &PromptFigures) -> (r: String)
    ensures
        r@ == prompt_spec(persona@, market_id@, *rec, closes_in, remaining, resets_in, all_markets@, open_orders@,
            recent@, kline_count as nat, *f),
{
    let mut v = text::chars_of(persona_intro(persona).as_str());
    text::push_str(&mut v, persona_style(persona));
    text::push_str(&mut v, f.rules.as_str());
    text::push_str(&mut v, state_section(f, remaining, resets_in, all_markets.len()).as_str());
    text::push_str(&mut v, orders_section(open_orders, f.fill_rate).as_str());
    text::push_str(&mut v, recent_results(recent).as_str());
    text::push_str(&mut v, "\n");
    text::push_str(&mut v, market_section(market_id, rec, closes_in, f).as_str());
    text::push_str(&mut v, kline_section(kline_count, f.kline_rows.as_str()).as_str());
    text::push_str(&mut v, other_markets(all_markets).as_str());
    text::string_of(&v)
}

} // verus!
