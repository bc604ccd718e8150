//! Reading the language model's answer: locating the JSON decision in free
//! text, and turning that JSON into a decision.
use vstd::prelude::*;
use crate::json::{Json, JsonNumber, json_parse, parse_json, or_default};
use crate::text::{self, contains, find_first, rfind_char, trim};

verus! {

/// Whether `serde_json` accepts `s` as one JSON document.
pub open spec fn json_text_is_valid(s: Seq<char>) -> bool {
    json_parse(s) is Some
}

fn is_valid_json(s: &str) -> (r: bool)
    ensures
        r == json_text_is_valid(s@),
{
    parse_json(s).is_some()
}

// ---------------------------------------------------------------------------
// Specification of the extraction
// ---------------------------------------------------------------------------

/// Scanning `s` forward from `i` with brace depth `depth`: the index just
/// after the `}` that brings the depth back to zero.
pub open spec fn match_forward(s: Seq<char>, i: int, depth: int) -> Option<int>
    decreases s.len() - i,
{
    if i < 0 || i >= s.len() {
        None
    } else if s[i] == '{' {
        match_forward(s, i + 1, depth + 1)
    } else if s[i] == '}' {
        if depth - 1 == 0 {
            Some(i + 1)
        } else {
            match_forward(s, i + 1, depth - 1)
        }
    } else {
        match_forward(s, i + 1, depth)
    }
}

/// Scanning `s` backward from index `k` with brace depth `depth`: the index
/// of the `{` that brings the depth back to zero.
pub open spec fn match_backward(s: Seq<char>, k: int, depth: int) -> Option<int>
    decreases k + 1,
{
    if k < 0 || k >= s.len() {
        None
    } else if s[k] == '}' {
        match_backward(s, k - 1, depth + 1)
    } else if s[k] == '{' {
        if depth - 1 == 0 {
            Some(k)
        } else {
            match_backward(s, k - 1, depth - 1)
        }
    } else {
        match_backward(s, k - 1, depth)
    }
}

/// The brace-balanced object that follows the first `prefix` in `t`.
pub open spec fn prefixed_object(t: Seq<char>, prefix: Seq<char>) -> Option<Seq<char>> {
    match find_first(t, prefix) {
        None => None,
        Some(pos) => {
            let after = t.skip(pos + prefix.len());
            match find_first(after, seq!['{']) {
                None => None,
                Some(js) => {
                    let part = after.skip(js);
                    match match_forward(part, 0, 0) {
                        Some(end) => if end > 0 {
                            Some(part.take(end))
                        } else {
                            None
                        },
                        None => None,
                    }
                },
            }
        },
    }
}

/// The object after `prefix`, when it is valid JSON.
pub open spec fn decision_after(t: Seq<char>, prefix: Seq<char>) -> Option<Seq<char>> {
    match prefixed_object(t, prefix) {
        Some(c) => if json_text_is_valid(c) {
            Some(c)
        } else {
            None
        },
        None => None,
    }
}

/// The content of the first fence opened by `open`, trimmed.
pub open spec fn fenced(t: Seq<char>, open: Seq<char>) -> Option<Seq<char>> {
    match find_first(t, open) {
        None => None,
        Some(start) => {
            let after = t.skip(start + open.len());
            match find_first(after, "```"@) {
                None => None,
                Some(end) => Some(trim(after.take(end))),
            }
        },
    }
}

/// The last brace-balanced object of `t`, found from its last `}`.
pub open spec fn last_object(t: Seq<char>) -> Option<Seq<char>> {
    match rfind_char(t, '}') {
        None => None,
        Some(last_close) => {
            let before = t.take(last_close + 1);
            match match_backward(before, before.len() - 1, 0) {
                Some(start) => Some(t.subrange(start, last_close + 1)),
                None => None,
            }
        },
    }
}

/// The text from the first `{` to the last `}` of `t`.
pub open spec fn outer_braces(t: Seq<char>) -> Option<Seq<char>> {
    match (find_first(t, seq!['{']), rfind_char(t, '}')) {
        (Some(start), Some(end)) => if end > start {
            Some(t.subrange(start, end + 1))
        } else {
            None
        },
        _ => None,
    }
}

/// `o` when it holds valid JSON.
pub open spec fn valid_or_none(o: Option<Seq<char>>) -> Option<Seq<char>> {
    match o {
        Some(c) => if json_text_is_valid(c) {
            Some(c)
        } else {
            None
        },
        None => None,
    }
}

/// The JSON object found in a model's answer, by priority: the object after
/// a `DECISION:` marker (four spellings, in order), the whole trimmed answer,
/// a ```` ```json ```` fence, a plain fence holding an object, the last
/// balanced object, and the span from the first `{` to the last `}`.  Each
/// candidate counts only when it is valid JSON.
pub open spec fn extracted_json(text: Seq<char>) -> Option<Seq<char>> {
    let t = trim(text);
    if decision_after(t, "DECISION:"@) is Some {
        decision_after(t, "DECISION:"@)
    } else if decision_after(t, "DECISION :"@) is Some {
        decision_after(t, "DECISION :"@)
    } else if decision_after(t, "decision:"@) is Some {
        decision_after(t, "decision:"@)
    } else if decision_after(t, "Decision:"@) is Some {
        decision_after(t, "Decision:"@)
    } else if t.len() > 0 && t[0] == '{' && json_text_is_valid(t) {
        Some(t)
    } else if valid_or_none(fenced(t, "```json"@)) is Some {
        valid_or_none(fenced(t, "```json"@))
    } else if fenced(t, "```"@) is Some && fenced(t, "```"@).unwrap().len() > 0
        && fenced(t, "```"@).unwrap()[0] == '{' && json_text_is_valid(fenced(t, "```"@).unwrap()) {
        fenced(t, "```"@)
    } else if valid_or_none(last_object(t)) is Some {
        valid_or_none(last_object(t))
    } else {
        valid_or_none(outer_braces(t))
    }
}

/// `s` is a part of `t`: the characters between two positions of `t`.
pub open spec fn is_part_of(s: Seq<char>, t: Seq<char>) -> bool {
    exists|a: int, b: int| 0 <= a <= b <= t.len() && #[trigger] t.subrange(a, b) == s
}

proof fn lemma_match_forward_range(s: Seq<char>, i: int, depth: int)
    ensures
        match_forward(s, i, depth) matches Some(e) ==> i < e <= s.len(),
    decreases s.len() - i,
{
    if 0 <= i < s.len() {
        if s[i] == '{' {
            lemma_match_forward_range(s, i + 1, depth + 1);
        } else if s[i] == '}' {
            if depth - 1 != 0 {
                lemma_match_forward_range(s, i + 1, depth - 1);
            }
        } else {
            lemma_match_forward_range(s, i + 1, depth);
        }
    }
}

proof fn lemma_match_backward_range(s: Seq<char>, k: int, depth: int)
    ensures
        match_backward(s, k, depth) matches Some(st) ==> 0 <= st <= k,
    decreases k + 1,
{
    if 0 <= k < s.len() {
        if s[k] == '}' {
            lemma_match_backward_range(s, k - 1, depth + 1);
        } else if s[k] == '{' {
            if depth - 1 != 0 {
                lemma_match_backward_range(s, k - 1, depth - 1);
            }
        } else {
            lemma_match_backward_range(s, k - 1, depth);
        }
    }
}

proof fn lemma_prefixed_object_part(t: Seq<char>, prefix: Seq<char>)
    ensures
        prefixed_object(t, prefix) matches Some(c) ==> is_part_of(c, t),
{
    text::lemma_find_from_range(t, prefix, 0);
    if let Some(pos) = find_first(t, prefix) {
        let after = t.skip(pos + prefix.len());
        text::lemma_find_from_range(after, seq!['{'], 0);
        if let Some(js) = find_first(after, seq!['{']) {
            let part = after.skip(js);
            lemma_match_forward_range(part, 0, 0);
            if let Some(end) = match_forward(part, 0, 0) {
                let a = pos + prefix.len() + js;
                assert(t.subrange(a, a + end) =~= part.take(end));
            }
        }
    }
}

proof fn lemma_fenced_part(t: Seq<char>, open: Seq<char>)
    ensures
        fenced(t, open) matches Some(c) ==> is_part_of(c, t),
{
    text::lemma_find_from_range(t, open, 0);
    if let Some(start) = find_first(t, open) {
        let after = t.skip(start + open.len());
        text::lemma_find_from_range(after, "```"@, 0);
        if let Some(end) = find_first(after, "```"@) {
            let inner = after.take(end);
            text::lemma_trim_part(inner);
            let a = start + open.len() + text::leading_ws(inner);
            assert(t.subrange(a, a + trim(inner).len()) =~= trim(inner));
        }
    }
}

proof fn lemma_last_object_part(t: Seq<char>)
    ensures
        last_object(t) matches Some(c) ==> is_part_of(c, t),
{
    text::lemma_rfind_char_range(t, '}', t.len() - 1);
    if let Some(last_close) = rfind_char(t, '}') {
        let before = t.take(last_close + 1);
        lemma_match_backward_range(before, before.len() - 1, 0);
        if let Some(start) = match_backward(before, before.len() - 1, 0) {
            assert(t.subrange(start, last_close + 1) == t.subrange(start, last_close + 1));
        }
    }
}

proof fn lemma_outer_braces_part(t: Seq<char>)
    ensures
        outer_braces(t) matches Some(c) ==> is_part_of(c, t),
{
    text::lemma_find_from_range(t, seq!['{'], 0);
    text::lemma_rfind_char_range(t, '}', t.len() - 1);
    if let (Some(start), Some(end)) = (find_first(t, seq!['{']), rfind_char(t, '}')) {
        assert(t.subrange(start, end + 1) == t.subrange(start, end + 1));
    }
}

/// What the extraction finds is valid JSON and a part of the trimmed answer.
/// An answer that, trimmed, is a JSON object and holds none of the four
/// decision markers is taken whole.
pub proof fn lemma_extracted_json_sound(text: Seq<char>)
    ensures
        extracted_json(text) matches Some(s) ==> json_text_is_valid(s) && is_part_of(s, trim(text)),
        ({
            let t = trim(text);
            t.len() > 0 && t[0] == '{' && json_text_is_valid(t) && !contains(t, "DECISION:"@)
                && !contains(t, "DECISION :"@) && !contains(t, "decision:"@) && !contains(t, "Decision:"@)
                ==> extracted_json(text) == Some(t)
        }),
{
    let t = trim(text);
    lemma_prefixed_object_part(t, "DECISION:"@);
    lemma_prefixed_object_part(t, "DECISION :"@);
    lemma_prefixed_object_part(t, "decision:"@);
    lemma_prefixed_object_part(t, "Decision:"@);
    lemma_fenced_part(t, "```json"@);
    lemma_fenced_part(t, "```"@);
    lemma_last_object_part(t);
    lemma_outer_braces_part(t);
    assert(t.subrange(0, t.len() as int) =~= t);
}

// ---------------------------------------------------------------------------
// Implementation of the extraction
// ---------------------------------------------------------------------------

/// The characters `s[a..b]`.
fn sub_chars(s: &[char], a: usize, b: usize) -> (r: Vec<char>)
    requires
        a <= b <= s@.len(),
    ensures
        r@ == s@.subrange(a as int, b as int),
{
    let mut out: Vec<char> = Vec::new();
    let mut k = a;
    while k < b
        invariant
            a <= k <= b <= s@.len(),
            out@ == s@.subrange(a as int, k as int),
        decreases b - k,
    {
        out.push(s[k]);
        k = k + 1;
    }
    out
}

fn match_forward_exec(s: &[char]) -> (r: Option<usize>)
    ensures
        match r {
            Some(x) => match_forward(s@, 0, 0) == Some(x as int),
            None => match_forward(s@, 0, 0) is None,
        },
        r matches Some(e) ==> e <= s@.len(),
{
    let mut depth: i128 = 0;
    let mut i: usize = 0;
    while i < s.len()
        invariant
            i <= s@.len(),
            -(i as int) <= depth <= i as int,
            match_forward(s@, 0, 0) == match_forward(s@, i as int, depth as int),
        decreases s@.len() - i,
    {
        let c = s[i];
        if c == '{' {
            depth = depth + 1;
        } else if c == '}' {
            depth = depth - 1;
            if depth == 0 {
                return Some(i + 1);
            }
        }
        i = i + 1;
    }
    None
}

fn match_backward_exec(s: &[char]) -> (r: Option<usize>)
    ensures
        match r {
            Some(x) => match_backward(s@, s@.len() - 1, 0) == Some(x as int),
            None => match_backward(s@, s@.len() - 1, 0) is None,
        },
        r matches Some(k) ==> k < s@.len(),
{
    let mut depth: i128 = 0;
    let mut k: usize = s.len();
    while k > 0
        invariant
            k <= s@.len(),
            -((s@.len() - k) as int) <= depth <= (s@.len() - k) as int,
            match_backward(s@, s@.len() - 1, 0) == match_backward(s@, k - 1, depth as int),
        decreases k,
    {
        let c = s[k - 1];
        if c == '}' {
            depth = depth + 1;
        } else if c == '{' {
            depth = depth - 1;
            if depth == 0 {
                return Some(k - 1);
            }
        }
        k = k - 1;
    }
    None
}

fn prefixed_object_exec(t: &[char], prefix: &str) -> (r: Option<Vec<char>>)
    ensures
        match prefixed_object(t@, prefix@) {
            Some(c) => r is Some && r.unwrap()@ == c,
            None => r is None,
        },
{
    let pv = text::chars_of(prefix);
    let n = t.len();
    match text::find_chars(t, &pv) {
        None => None,
        Some(pos) => {
            let after = sub_chars(t, pos + pv.len(), t.len());
            assert(after@ == t@.skip(pos + prefix@.len()));
            let brace = vec!['{'];
            assert(brace@ == seq!['{']);
            match text::find_chars(&after, &brace) {
                None => None,
                Some(js) => {
                    let part = sub_chars(&after, js, after.len());
                    assert(part@ == after@.skip(js as int));
                    match match_forward_exec(&part) {
                        Some(end) => if end > 0 {
                            Some(sub_chars(&part, 0, end))
                        } else {
                            None
                        },
                        None => None,
                    }
                },
            }
        },
    }
}

fn decision_after_exec(t: &[char], prefix: &str) -> (r: Option<Vec<char>>)
    ensures
        match decision_after(t@, prefix@) {
            Some(c) => r is Some && r.unwrap()@ == c,
            None => r is None,
        },
{
    match prefixed_object_exec(t, prefix) {
        Some(c) => {
            let cs = text::string_of(&c);
            if is_valid_json(cs.as_str()) {
                Some(c)
            } else {
                None
            }
        },
        None => None,
    }
}

fn fenced_exec(t: &[char], open: &str) -> (r: Option<Vec<char>>)
    ensures
        match fenced(t@, open@) {
            Some(c) => r is Some && r.unwrap()@ == c,
            None => r is None,
        },
{
    let ov = text::chars_of(open);
    let n = t.len();
    match text::find_chars(t, &ov) {
        None => None,
        Some(start) => {
            let after = sub_chars(t, start + ov.len(), t.len());
            assert(after@ == t@.skip(start + open@.len()));
            let fence = text::chars_of("```");
            match text::find_chars(&after, &fence) {
                None => None,
                Some(end) => {
                    let inner = sub_chars(&after, 0, end);
                    assert(inner@ == after@.take(end as int));
                    Some(text::trim_chars(&inner))
                },
            }
        },
    }
}

fn last_object_exec(t: &[char]) -> (r: Option<Vec<char>>)
    ensures
        match last_object(t@) {
            Some(c) => r is Some && r.unwrap()@ == c,
            None => r is None,
        },
{
    let n = t.len();
    match text::rfind_char_exec(t, '}') {
        None => None,
        Some(last_close) => {
            assert(last_close < n);
            let before = sub_chars(t, 0, last_close + 1);
            assert(before@ == t@.take(last_close + 1));
            match match_backward_exec(&before) {
                Some(start) => Some(sub_chars(t, start, last_close + 1)),
                None => None,
            }
        },
    }
}

fn outer_braces_exec(t: &[char]) -> (r: Option<Vec<char>>)
    ensures
        match outer_braces(t@) {
            Some(c) => r is Some && r.unwrap()@ == c,
            None => r is None,
        },
{
    let brace = vec!['{'];
    assert(brace@ == seq!['{']);
    let n = t.len();
    let start = text::find_chars(t, &brace);
    let end = text::rfind_char_exec(t, '}');
    match (start, end) {
        (Some(s), Some(e)) => if e > s {
            assert(e < n);
            Some(sub_chars(t, s, e + 1))
        } else {
            None
        },
        _ => None,
    }
}

fn valid_or_none_exec(o: Option<Vec<char>>) -> (r: Option<Vec<char>>)
    ensures
        match valid_or_none(match o { Some(v) => Some(v@), None => None }) {
            Some(c) => r is Some && r.unwrap()@ == c,
            None => r is None,
        },
{
    match o {
        Some(c) => {
            let cs = text::string_of(&c);
            if is_valid_json(cs.as_str()) {
                Some(c)
            } else {
                None
            }
        },
        None => None,
    }
}

/// Extracts the JSON object from a model's answer that may hold markdown
/// fences or surrounding text; a `DECISION:` marker takes priority.
pub fn extract_json(text: &str) -> (r: Option<String>)
    ensures
        match extracted_json(text@) {
            Some(c) => r is Some && r.unwrap()@ == c,
            None => r is None,
        },
{
    let tv = text::chars_of(text);
    let t = text::trim_chars(&tv);
    let ghost tt = trim(text@);
    assert(t@ == tt);
    let d1 = decision_after_exec(&t, "DECISION:");
    if d1.is_some() {
        return Some(text::string_of(&d1.unwrap()));
    }
    let d2 = decision_after_exec(&t, "DECISION :");
    if d2.is_some() {
        return Some(text::string_of(&d2.unwrap()));
    }
    let d3 = decision_after_exec(&t, "decision:");
    if d3.is_some() {
        return Some(text::string_of(&d3.unwrap()));
    }
    let d4 = decision_after_exec(&t, "Decision:");
    if d4.is_some() {
        return Some(text::string_of(&d4.unwrap()));
    }
    if t.len() > 0 && t[0] == '{' {
        let ts = text::string_of(&t);
        if is_valid_json(ts.as_str()) {
            return Some(ts);
        }
    }
    let f1 = valid_or_none_exec(fenced_exec(&t, "```json"));
    if f1.is_some() {
        return Some(text::string_of(&f1.unwrap()));
    }
    let f2 = fenced_exec(&t, "```");
    if f2.is_some() {
        let c = f2.unwrap();
        if c.len() > 0 && c[0] == '{' {
            let cs = text::string_of(&c);
            if is_valid_json(cs.as_str()) {
                return Some(cs);
            }
        }
    }
    let l = valid_or_none_exec(last_object_exec(&t));
    if l.is_some() {
        return Some(text::string_of(&l.unwrap()));
    }
    let o = valid_or_none_exec(outer_braces_exec(&t));
    if o.is_some() {
        return Some(text::string_of(&o.unwrap()));
    }
    None
}

// ---------------------------------------------------------------------------
// The decision
// ---------------------------------------------------------------------------

/// How many tickets the model asked for.
#[derive(Debug, PartialEq)]
pub enum TicketRequest {
    /// No `tickets` member, or one that is not a number.
    Absent,
    /// An integer count: the requested number, at least 1, taken modulo 2^32
    /// as a cast to `u32` does.
    Count(u32),
    /// A number with a fractional part or exponent, as its text; turning it
    /// into a count is a floating-point conversion left to the caller.
    Fractional(String),
}

/// What the model decided.
#[derive(Debug, PartialEq)]
pub enum LlmDecision {
    Submit {
        /// `up` or `down`.
        direction: String,
        /// The model's analysis, at least 80 characters long.
        reasoning: String,
        tickets: TicketRequest,
        /// The market the model chose, if it named one.
        market_id: Option<String>,
        /// The text of a non-integer `limit_price`; whether it lies within
        /// 0.01..=0.99 is a floating-point comparison left to the caller.
        /// Integer prices never lie in that range and are dropped here.
        limit_price_text: Option<String>,
    },
    Skip {
        reason: String,
    },
}

/// Why the model's answer could not be used.
#[derive(Debug, PartialEq)]
pub enum LlmParseError {
    /// No JSON object was found in the answer.
    NoJson,
    /// The extracted text is not JSON (first 200 characters kept).
    InvalidJson(String),
    /// `direction` is missing or is neither `up` nor `down`.
    InvalidDirection,
    /// `reasoning` is missing or shorter than 80 characters.
    ReasoningTooShort,
}

/// The action the model chose: its `action` member lowercased, `submit` when absent.
pub open spec fn decision_action(v: Json) -> Seq<char> {
    match v.field_str("action"@) {
        Some(a) => text::lowercase(a),
        None => "submit"@,
    }
}

/// `u`, raised to 1 when it is 0.
pub open spec fn at_least_one(u: u64) -> int {
    if u < 1 {
        1
    } else {
        u as int
    }
}

/// `t` is the ticket request carried by member `tickets` of `v`.
pub open spec fn ticket_request_of(v: Json, t: TicketRequest) -> bool {
    match v.get_spec("tickets"@) {
        Some(Json::Number(JsonNumber::PosInt(u))) =>
            t == TicketRequest::Count((at_least_one(u) % 0x1_0000_0000) as u32),
        Some(Json::Number(JsonNumber::NegInt(_))) => t == TicketRequest::Count(1),
        Some(Json::Number(JsonNumber::Float(x))) => t matches TicketRequest::Fractional(y) && y@ == x@,
        _ => t is Absent,
    }
}

/// The text of a non-integer `limit_price` member.
pub open spec fn limit_price_candidate(v: Json) -> Option<Seq<char>> {
    match v.get_spec("limit_price"@) {
        Some(Json::Number(JsonNumber::Float(t))) => Some(t@),
        _ => None,
    }
}

/// Views of the parts of a decision that are text.
pub open spec fn opt_view(o: Option<String>) -> Option<Seq<char>> {
    match o {
        Some(s) => Some(s@),
        None => None,
    }
}

/// The decision a JSON answer stands for: a skip when `action` is `skip`
/// (its reason the `reasoning` member, or a fixed text); otherwise a
/// submission whose direction is the lowercased `direction` member, `up` or
/// `down`, and whose reasoning is at least 80 characters long.
pub open spec fn decision_ok(v: Json, r: LlmDecision) -> bool {
    if decision_action(v) == "skip"@ {
        r matches LlmDecision::Skip { reason } && reason@ == or_default(v.field_str("reasoning"@), "No reason provided"@)
    } else {
        r matches LlmDecision::Submit { direction, reasoning, tickets, market_id, limit_price_text } && {
            &&& v.field_str("direction"@) is Some
            &&& direction@ == text::lowercase(v.field_str("direction"@).unwrap())
            &&& (direction@ == "up"@ || direction@ == "down"@)
            &&& v.field_str("reasoning"@) == Some(reasoning@)
            &&& reasoning@.len() >= 80
            &&& ticket_request_of(v, tickets)
            &&& opt_view(market_id) == v.field_str("market_id"@)
            &&& opt_view(limit_price_text) == limit_price_candidate(v)
        }
    }
}

/// The error a JSON answer that is no usable decision gives.
pub open spec fn decision_error(v: Json) -> Option<LlmParseError> {
    if decision_action(v) == "skip"@ {
        None
    } else if !(v.field_str("direction"@) is Some && (text::lowercase(v.field_str("direction"@).unwrap()) == "up"@
        || text::lowercase(v.field_str("direction"@).unwrap()) == "down"@)) {
        Some(LlmParseError::InvalidDirection)
    } else if !(v.field_str("reasoning"@) is Some && v.field_str("reasoning"@).unwrap().len() >= 80) {
        Some(LlmParseError::ReasoningTooShort)
    } else {
        None
    }
}

fn copy_opt_str(o: Option<&str>) -> (r: Option<String>)
    ensures
        match o {
            Some(s) => r is Some && r.unwrap()@ == s@,
            None => r is None,
        },
{
    match o {
        Some(s) => Some(text::to_owned_string(s)),
        None => None,
    }
}

/// Turns the model's JSON answer into a decision.
pub fn decide_from_json(v: &Json) -> (r: Result<LlmDecision, LlmParseError>)
    ensures
        match decision_error(*v) {
            Some(e) => r == Err::<LlmDecision, LlmParseError>(e),
            None => r is Ok && decision_ok(*v, r->Ok_0),
        },
{
    let action = match v.field_str_exec("action") {
        Some(a) => text::to_lowercase(a),
        None => text::to_owned_string("submit"),
    };
    if crate::json::eq_str(action.as_str(), "skip") {
        let reason = match v.field_str_exec("reasoning") {
            Some(r) => text::to_owned_string(r),
            None => text::to_owned_string("No reason provided"),
        };
        return Ok(LlmDecision::Skip { reason });
    }
    let direction = match v.field_str_exec("direction") {
        Some(d) => text::to_lowercase(d),
        None => {
            return Err(LlmParseError::InvalidDirection);
        },
    };
    if !(crate::json::eq_str(direction.as_str(), "up") || crate::json::eq_str(direction.as_str(), "down")) {
        return Err(LlmParseError::InvalidDirection);
    }
    let reasoning = match v.field_str_exec("reasoning") {
        Some(r) => {
            if text::char_count(r) < 80 {
                return Err(LlmParseError::ReasoningTooShort);
            }
            text::to_owned_string(r)
        },
        None => {
            return Err(LlmParseError::ReasoningTooShort);
        },
    };
    let tickets = match v.get("tickets") {
        Some(Json::Number(JsonNumber::PosInt(u))) => {
            let t: u64 = if *u < 1 { 1 } else { *u };
            TicketRequest::Count((t % 0x1_0000_0000u64) as u32)
        },
        Some(Json::Number(JsonNumber::NegInt(_))) => TicketRequest::Count(1),
        Some(Json::Number(JsonNumber::Float(t))) => TicketRequest::Fractional(text::to_owned_string(t.as_str())),
        _ => TicketRequest::Absent,
    };
    let market_id = copy_opt_str(v.field_str_exec("market_id"));
    let limit_price_text = match v.get("limit_price") {
        Some(Json::Number(JsonNumber::Float(t))) => Some(text::to_owned_string(t.as_str())),
        _ => None,
    };
    Ok(LlmDecision::Submit { direction, reasoning, tickets, market_id, limit_price_text })
}

/// Reads the model's answer: finds the JSON object in it, parses it, and
/// turns it into a decision.
pub fn parse_llm_response(text: &str) -> (r: Result<LlmDecision, LlmParseError>)
    ensures
        match extracted_json(text@) {
            None => r == Err::<LlmDecision, LlmParseError>(LlmParseError::NoJson),
            Some(j) => match json_parse(j) {
                None => r is Err && (r->Err_0 matches LlmParseError::InvalidJson(m)
                    && m@ == text::truncated(j, 200, "..."@)),
                Some(v) => match decision_error(v) {
                    Some(e) => r == Err::<LlmDecision, LlmParseError>(e),
                    None => r is Ok && decision_ok(v, r->Ok_0),
                },
            },
        },
{
    let json_str = match extract_json(text) {
        Some(j) => j,
        None => {
            return Err(LlmParseError::NoJson);
        },
    };
    match parse_json(json_str.as_str()) {
        Some(v) => decide_from_json(&v),
        None => Err(LlmParseError::InvalidJson(text::truncate_str(json_str.as_str(), 200))),
    }
}

impl LlmParseError {
    /// The message that describes the error.
    pub fn message(&self) -> (r: String)
        ensures
            match self {
                LlmParseError::NoJson => r@ == "no JSON object found in LLM response"@,
                LlmParseError::InvalidJson(j) => r@ == "invalid JSON from LLM: "@ + j@,
                LlmParseError::InvalidDirection => r@ == "missing or invalid 'direction' (must be 'up' or 'down')"@,
                LlmParseError::ReasoningTooShort => r@ == "missing or too short 'reasoning' (must be >= 80 chars)"@,
            },
    {
        match self {
            LlmParseError::NoJson => text::to_owned_string("no JSON object found in LLM response"),
            LlmParseError::InvalidJson(j) => text::concat2("invalid JSON from LLM: ", j.as_str()),
            LlmParseError::InvalidDirection => text::to_owned_string(
                "missing or invalid 'direction' (must be 'up' or 'down')",
            ),
            LlmParseError::ReasoningTooShort => text::to_owned_string(
                "missing or too short 'reasoning' (must be >= 80 chars)",
            ),
        }
    }
}

} // verus!
