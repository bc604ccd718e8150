//! A plain-value model of JSON documents.
//!
//! Values received from the coordinator, the wallet or the language model are
//! handed to the library in this form, and values the library builds (request
//! bodies, command output) are returned in it.  Numbers keep the distinction
//! that `serde_json` makes: non-negative integers, negative integers, and
//! other numbers, the last kept as their decimal text.
use vstd::prelude::*;
use crate::text;

verus! {

/// A JSON number.
#[derive(Debug, PartialEq)]
pub enum JsonNumber {
    /// A non-negative integer.
    PosInt(u64),
    /// A negative integer.
    NegInt(i64),
    /// Any other number, as the text that denotes it.
    Float(String),
}

/// A JSON value.  Object members keep their order in this value, and lookups
/// take the first member with the key.  A value read by `parse_json` has its
/// keys sorted, as `serde_json` stores them, and the program's printed and
/// sent JSON goes through `serde_json` too, so its keys come out sorted.
#[derive(Debug, PartialEq)]
pub enum Json {
    Null,
    Bool(bool),
    Number(JsonNumber),
    Str(String),
    Array(Vec<Json>),
    Object(Vec<(String, Json)>),
}

// ---------------------------------------------------------------------------
// Specifications of the accessors
// ---------------------------------------------------------------------------

/// Index of the first member of `members` whose key is `key`.
pub open spec fn member_index_from(members: Seq<(String, Json)>, key: Seq<char>, i: int) -> Option<int>
    decreases members.len() - i,
{
    if i < 0 || i >= members.len() {
        None
    } else if members[i].0@ == key {
        Some(i)
    } else {
        member_index_from(members, key, i + 1)
    }
}

impl Json {
    /// The value of member `key`, when `self` is an object that has it.
    pub open spec fn get_spec(self, key: Seq<char>) -> Option<Json> {
        match self {
            Json::Object(m) => match member_index_from(m@, key, 0) {
                Some(i) => Some(m@[i].1),
                None => None,
            },
            _ => None,
        }
    }

    /// The text of a string value.
    pub open spec fn str_spec(self) -> Option<Seq<char>> {
        match self {
            Json::Str(s) => Some(s@),
            _ => None,
        }
    }

    /// A boolean value.
    pub open spec fn bool_spec(self) -> Option<bool> {
        match self {
            Json::Bool(b) => Some(b),
            _ => None,
        }
    }

    /// An integer value that fits in `i64` (what `Value::as_i64` gives).
    pub open spec fn i64_spec(self) -> Option<i64> {
        match self {
            Json::Number(JsonNumber::PosInt(u)) => if u <= i64::MAX {
                Some(u as i64)
            } else {
                None
            },
            Json::Number(JsonNumber::NegInt(i)) => Some(i),
            _ => None,
        }
    }

    /// A non-negative integer value (what `Value::as_u64` gives).
    pub open spec fn u64_spec(self) -> Option<u64> {
        match self {
            Json::Number(JsonNumber::PosInt(u)) => Some(u),
            _ => None,
        }
    }

    /// The elements of an array value.
    pub open spec fn array_spec(self) -> Option<Seq<Json>> {
        match self {
            Json::Array(a) => Some(a@),
            _ => None,
        }
    }

    /// Member `key` of an object, as text.
    pub open spec fn field_str(self, key: Seq<char>) -> Option<Seq<char>> {
        match self.get_spec(key) {
            Some(v) => v.str_spec(),
            None => None,
        }
    }

    /// Member `key` of an object, as a boolean.
    pub open spec fn field_bool(self, key: Seq<char>) -> Option<bool> {
        match self.get_spec(key) {
            Some(v) => v.bool_spec(),
            None => None,
        }
    }

    /// Member `key` of an object, as an `i64`.
    pub open spec fn field_i64(self, key: Seq<char>) -> Option<i64> {
        match self.get_spec(key) {
            Some(v) => v.i64_spec(),
            None => None,
        }
    }

    /// Member `key` of an object, as a `u64`.
    pub open spec fn field_u64(self, key: Seq<char>) -> Option<u64> {
        match self.get_spec(key) {
            Some(v) => v.u64_spec(),
            None => None,
        }
    }

    /// Member `key` of member `outer`.
    pub open spec fn nested(self, outer: Seq<char>, key: Seq<char>) -> Option<Json> {
        match self.get_spec(outer) {
            Some(v) => v.get_spec(key),
            None => None,
        }
    }
}

/// `o` if present, else `d`.
pub open spec fn or_default<T>(o: Option<T>, d: T) -> T {
    match o {
        Some(v) => v,
        None => d,
    }
}

// ---------------------------------------------------------------------------
// Accessors
// ---------------------------------------------------------------------------

impl Json {
    /// The value of member `key`, when `self` is an object that has it.
    pub fn get(&self, key: &str) -> (r: Option<&Json>)
        ensures
            match self.get_spec(key@) {
                Some(v) => r == Some(&v),
                None => r is None,
            },
    {
        match self {
            Json::Object(m) => {
                let k = text::chars_of(key);
                let mut i: usize = 0;
                while i < m.len()
                    invariant
                        i <= m@.len(),
                        k@ == key@,
                        member_index_from(m@, key@, 0) == member_index_from(m@, key@, i as int),
                        self.get_spec(key@) == (match member_index_from(m@, key@, 0) {
                            Some(j) => Some(m@[j].1),
                            None => None,
                        }),
                    decreases m@.len() - i,
                {
                    let kv = text::chars_of(m[i].0.as_str());
                    if eq_chars(&kv, &k) {
                        return Some(&m[i].1);
                    }
                    i = i + 1;
                }
                None
            },
            _ => None,
        }
    }

    /// The text of a string value.
    pub fn as_str(&self) -> (r: Option<&str>)
        ensures
            match self.str_spec() {
                Some(s) => r is Some && r.unwrap()@ == s,
                None => r is None,
            },
    {
        match self {
            Json::Str(s) => Some(s.as_str()),
            _ => None,
        }
    }

    /// A boolean value.
    pub fn as_bool(&self) -> (r: Option<bool>)
        ensures
            r == self.bool_spec(),
    {
        match self {
            Json::Bool(b) => Some(*b),
            _ => None,
        }
    }

    /// An integer value that fits in `i64`.
    pub fn as_i64(&self) -> (r: Option<i64>)
        ensures
            r == self.i64_spec(),
    {
        match self {
            Json::Number(JsonNumber::PosInt(u)) => if *u <= 9223372036854775807u64 {
                Some(*u as i64)
            } else {
                None
            },
            Json::Number(JsonNumber::NegInt(i)) => Some(*i),
            _ => None,
        }
    }

    /// A non-negative integer value.
    pub fn as_u64(&self) -> (r: Option<u64>)
        ensures
            r == self.u64_spec(),
    {
        match self {
            Json::Number(JsonNumber::PosInt(u)) => Some(*u),
            _ => None,
        }
    }

    /// The elements of an array value.
    pub fn as_array(&self) -> (r: Option<&Vec<Json>>)
        ensures
            match self.array_spec() {
                Some(a) => r is Some && r.unwrap()@ == a,
                None => r is None,
            },
    {
        match self {
            Json::Array(a) => Some(a),
            _ => None,
        }
    }

    /// Whether the value is `null`.
    pub fn is_null(&self) -> (r: bool)
        ensures
            r == (self is Null),
    {
        match self {
            Json::Null => true,
            _ => false,
        }
    }

    /// Member `key` of an object, as text.
    pub fn field_str_exec(&self, key: &str) -> (r: Option<&str>)
        ensures
            match self.field_str(key@) {
                Some(s) => r is Some && r.unwrap()@ == s,
                None => r is None,
            },
    {
        match self.get(key) {
            Some(v) => v.as_str(),
            None => None,
        }
    }

    /// Member `key` of an object, as a boolean.
    pub fn field_bool_exec(&self, key: &str) -> (r: Option<bool>)
        ensures
            r == self.field_bool(key@),
    {
        match self.get(key) {
            Some(v) => v.as_bool(),
            None => None,
        }
    }

    /// Member `key` of an object, as an `i64`.
    pub fn field_i64_exec(&self, key: &str) -> (r: Option<i64>)
        ensures
            r == self.field_i64(key@),
    {
        match self.get(key) {
            Some(v) => v.as_i64(),
            None => None,
        }
    }

    /// Member `key` of an object, as a `u64`.
    pub fn field_u64_exec(&self, key: &str) -> (r: Option<u64>)
        ensures
            r == self.field_u64(key@),
    {
        match self.get(key) {
            Some(v) => v.as_u64(),
            None => None,
        }
    }

    /// Member `key` of member `outer`.
    pub fn nested_exec(&self, outer: &str, key: &str) -> (r: Option<&Json>)
        ensures
            match self.nested(outer@, key@) {
                Some(v) => r == Some(&v),
                None => r is None,
            },
    {
        match self.get(outer) {
            Some(v) => v.get(key),
            None => None,
        }
    }
}

/// Whether two character sequences are equal.
pub fn eq_chars(a: &[char], b: &[char]) -> (r: bool)
    ensures
        r == (a@ == b@),
{
    if a.len() != b.len() {
        return false;
    }
    let mut i: usize = 0;
    while i < a.len()
        invariant
            a@.len() == b@.len(),
            i <= a@.len(),
            forall|j: int| 0 <= j < i ==> a@[j] == b@[j],
        decreases a@.len() - i,
    {
        if a[i] != b[i] {
            return false;
        }
        i = i + 1;
    }
    assert(a@ =~= b@);
    true
}

/// Whether two strings are equal.
pub fn eq_str(a: &str, b: &str) -> (r: bool)
    ensures
        r == (a@ == b@),
{
    let av = text::chars_of(a);
    let bv = text::chars_of(b);
    eq_chars(&av, &bv)
}

// ---------------------------------------------------------------------------
// Builders
// ---------------------------------------------------------------------------

/// A string value.
pub fn jstr(s: &str) -> (r: Json)
    ensures
        r == Json::Str(r->Str_0) && r->Str_0@ == s@,
{
    Json::Str(text::to_owned_string(s))
}

/// An integer value.
pub fn jint(i: i64) -> (r: Json)
    ensures
        r.i64_spec() == Some(i),
        i >= 0 ==> r == Json::Number(JsonNumber::PosInt(i as u64)),
        i < 0 ==> r == Json::Number(JsonNumber::NegInt(i)),
{
    if i >= 0 {
        Json::Number(JsonNumber::PosInt(i as u64))
    } else {
        Json::Number(JsonNumber::NegInt(i))
    }
}

/// A non-negative integer value.
pub fn juint(u: u64) -> (r: Json)
    ensures
        r == Json::Number(JsonNumber::PosInt(u)),
{
    Json::Number(JsonNumber::PosInt(u))
}

/// Adds member `key` with value `v` to the object under construction.
pub fn put(members: &mut Vec<(String, Json)>, key: &str, v: Json)
    ensures
        final(members)@.len() == old(members)@.len() + 1,
        forall|i: int| 0 <= i < old(members)@.len() ==> final(members)@[i] == old(members)@[i],
        final(members)@.last().0@ == key@,
        final(members)@.last().1 == v,
{
    members.push((text::to_owned_string(key), v));
}

// ---------------------------------------------------------------------------
// Parsing (serde_json)
// ---------------------------------------------------------------------------

#[verifier::external_type_specification]
#[verifier::external_body]
pub struct ExSerdeValue(serde_json::Value);

/// The document that `serde_json` reads from `s`, if it accepts `s`.
pub uninterp spec fn json_parse(s: Seq<char>) -> Option<Json>;

/// `serde_json::from_str::<serde_json::Value>`, the value then carried over
/// member by member into `Json`.  The outcome is named `json_parse`: it
/// depends on the text alone.  The JSON grammar that `serde_json` applies is
/// not restated here.
#[verifier::external_body]
pub(crate) fn parse_json(s: &str) -> (r: Option<Json>)
    ensures
        r == json_parse(s@),
{
    match serde_json::from_str::<serde_json::Value>(s) {
        Ok(v) => Some(from_serde(v)),
        Err(_) => None,
    }
}

/// Carries a `serde_json::Value` over into `Json`, variant by variant.
#[verifier::external_body]
fn from_serde(v: serde_json::Value) -> Json {
    match v {
        serde_json::Value::Null => Json::Null,
        serde_json::Value::Bool(b) => Json::Bool(b),
        serde_json::Value::Number(n) => Json::Number(match (n.as_u64(), n.as_i64()) {
            (Some(u), _) => JsonNumber::PosInt(u),
            (None, Some(i)) => JsonNumber::NegInt(i),
            (None, None) => JsonNumber::Float(n.to_string()),
        }),
        serde_json::Value::String(s) => Json::Str(s),
        serde_json::Value::Array(a) => Json::Array(a.into_iter().map(from_serde).collect()),
        serde_json::Value::Object(m) => Json::Object(m.into_iter().map(|(k, x)| (k, from_serde(x))).collect()),
    }
}

/// The keys of an object's members, in order.
pub open spec fn keys_of(v: Json) -> Seq<Seq<char>> {
    match v {
        Json::Object(m) => m@.map_values(|e: (String, Json)| e.0@),
        _ => Seq::empty(),
    }
}

/// Takes member `key` out of `v`, when `v` is an object that has it.
pub fn into_member(v: Json, key: &str) -> (r: Option<Json>)
    ensures
        r == v.get_spec(key@),
{
    let ghost vv = v;
    match v {
        Json::Object(mut m) => {
            let k = text::chars_of(key);
            let ghost m0 = m@;
            assert(vv.get_spec(key@) == match member_index_from(m0, key@, 0) {
                Some(j) => Some(m0[j].1),
                None => None,
            });
            let mut i: usize = 0;
            while i < m.len()
                invariant
                    i <= m@.len(),
                    m@ == m0,
                    k@ == key@,
                    vv == v,
                    member_index_from(m0, key@, 0) == member_index_from(m0, key@, i as int),
                    vv.get_spec(key@) == match member_index_from(m0, key@, 0) {
                        Some(j) => Some(m0[j].1),
                        None => None,
                    },
                decreases m@.len() - i,
            {
                let kv = text::chars_of(m[i].0.as_str());
                if eq_chars(&kv, &k) {
                    assert(m0[i as int].0@ == key@);
                    assert(member_index_from(m0, key@, i as int) == Some(i as int));
                    let e = m.remove(i);
                    assert(e == m0[i as int]);
                    return Some(e.1);
                }
                i = i + 1;
            }
            None
        },
        _ => None,
    }
}

/// An object with no members.
pub fn empty_object() -> (r: Json)
    ensures
        r == Json::Object(r->Object_0),
        r->Object_0@.len() == 0,
{
    Json::Object(Vec::new())
}


/// The text members `key` of the objects in `items`, in order, skipping the
/// items that have none.
pub open spec fn string_fields(items: Seq<Json>, key: Seq<char>) -> Seq<Seq<char>>
    decreases items.len(),
{
    if items.len() == 0 {
        Seq::empty()
    } else {
        let rest = string_fields(items.drop_last(), key);
        match items.last().field_str(key) {
            Some(t) => rest.push(t),
            None => rest,
        }
    }
}

/// The text members `key` of the objects in `items`, in order, skipping the
/// items that have none.
pub fn collect_string_fields(items: &Vec<Json>, key: &str) -> (r: Vec<String>)
    ensures
        r@.map_values(|s: String| s@) == string_fields(items@, key@),
{
    let mut out: Vec<String> = Vec::new();
    let mut i: usize = 0;
    while i < items.len()
        invariant
            i <= items@.len(),
            out@.map_values(|s: String| s@) == string_fields(items@.take(i as int), key@),
        decreases items@.len() - i,
    {
        let ghost before = out@;
        assert(items@.take(i + 1).drop_last() == items@.take(i as int));
        assert(items@.take(i + 1).last() == items@[i as int]);
        match items[i].field_str_exec(key) {
            Some(t) => {
                out.push(text::to_owned_string(t));
                assert(out@.map_values(|s: String| s@) == before.map_values(|s: String| s@).push(t@));
            },
            None => {},
        }
        i = i + 1;
    }
    assert(items@.take(items@.len() as int) == items@);
    out
}

/// Where the first match for `k` lands after member `i` (not named `k`) is
/// removed, in terms of positions in the list before the removal.
pub open spec fn shifted(o: Option<int>, i: int) -> Option<int> {
    match o {
        Some(x) => Some(if x < i { x } else { x + 1 }),
        None => None,
    }
}

proof fn lemma_member_index_bounds(m: Seq<(String, Json)>, k: Seq<char>, j: int)
    requires
        0 <= j,
    ensures
        match member_index_from(m, k, j) {
            Some(x) => j <= x < m.len() && m[x].0@ == k,
            None => true,
        },
    decreases m.len() - j,
{
    if j < m.len() && m[j].0@ != k {
        lemma_member_index_bounds(m, k, j + 1);
    }
}

proof fn lemma_member_index_after_remove(m: Seq<(String, Json)>, i: int, k: Seq<char>, j: int)
    requires
        0 <= i < m.len(),
        m[i].0@ != k,
        0 <= j,
    ensures
        shifted(member_index_from(m.remove(i), k, if j <= i { j } else { j - 1 }), i) == member_index_from(m, k, j),
    decreases m.len() - j,
{
    let r = m.remove(i);
    m.remove_ensures(i);
    if j >= m.len() {
    } else if j < i {
        assert(r[j] == m[j]);
        if m[j].0@ != k {
            lemma_member_index_after_remove(m, i, k, j + 1);
        }
    } else if j == i {
        lemma_member_index_after_remove(m, i, k, j + 1);
    } else {
        assert(r[j - 1] == m[j]);
        if m[j].0@ != k {
            lemma_member_index_after_remove(m, i, k, j + 1);
        }
    }
}

/// Takes member `key` out of the object `v`; the other members stay.
pub fn take_member(v: &mut Json, key: &str) -> (r: Option<Json>)
    ensures
        r == old(v).get_spec(key@),
        forall|k: Seq<char>| k != key@ ==> (#[trigger] final(v).get_spec(k)) == old(v).get_spec(k),
{
    let ghost v0 = *v;
    let mut cur = Json::Null;
    std::mem::swap(&mut cur, v);
    match cur {
        Json::Object(mut m) => {
            let k = text::chars_of(key);
            let ghost m0 = m@;
            assert(v0 matches Json::Object(mm) && mm@ == m0);
            let mut i: usize = 0;
            while i < m.len()
                invariant
                    i <= m@.len(),
                    m@ == m0,
                    k@ == key@,
                    v0 matches Json::Object(mm) && mm@ == m0,
                    v0 == *old(v),
                    member_index_from(m0, key@, 0) == member_index_from(m0, key@, i as int),
                decreases m@.len() - i,
            {
                let kv = text::chars_of(m[i].0.as_str());
                if eq_chars(&kv, &k) {
                    assert(member_index_from(m0, key@, i as int) == Some(i as int));
                    let e = m.remove(i);
                    proof {
                        assert forall|kk: Seq<char>| kk != key@ implies (#[trigger] Json::Object(m).get_spec(kk)) == v0.get_spec(kk) by {
                            lemma_member_index_after_remove(m0, i as int, kk, 0);
                            m0.remove_ensures(i as int);
                            lemma_member_index_bounds(m@, kk, 0);
                            match member_index_from(m@, kk, 0) {
                                Some(x) => {
                                    if x < i {
                                        assert(m@[x] == m0[x]);
                                    } else {
                                        assert(m@[x] == m0[x + 1]);
                                    }
                                },
                                None => {},
                            }
                        }
                    }
                    *v = Json::Object(m);
                    return Some(e.1);
                }
                i = i + 1;
            }
            *v = Json::Object(m);
            None
        },
        other => {
            *v = other;
            None
        },
    }
}


/// Member `key` of `v`, or `null` when `v` has none (every lookup in `null`
/// finds nothing, as in an empty object).
pub open spec fn member_or_null(v: Json, key: Seq<char>) -> Json {
    or_default(v.get_spec(key), Json::Null)
}

/// `v` is an object with no members.
pub open spec fn is_empty_object(v: Json) -> bool {
    v matches Json::Object(m) && m@.len() == 0
}

/// Member `key` of `v`, or an empty object when `v` has none (what
/// `v.get(key).cloned().unwrap_or(json!({}))` gives).
pub open spec fn member_or_empty_ok(r: Json, v: Json, key: Seq<char>) -> bool {
    match v.get_spec(key) {
        Some(d) => r == d,
        None => is_empty_object(r),
    }
}

/// Member `key` of `v`, or an empty object when `v` has none.
pub fn member_or_empty(v: Json, key: &str) -> (r: Json)
    ensures
        member_or_empty_ok(r, v, key@),
{
    match into_member(v, key) {
        Some(d) => d,
        None => empty_object(),
    }
}


/// The object `{k1: v1, k2: v2}`.
pub fn object2(k1: &str, v1: Json, k2: &str, v2: Json) -> (r: Json)
    requires
        k1@ != k2@,
    ensures
        keys_of(r) == seq![k1@, k2@],
        r.get_spec(k1@) == Some(v1),
        r.get_spec(k2@) == Some(v2),
{
    proof {
        reveal_with_fuel(member_index_from, 3);
    }
    let r = Json::Object(vec![(text::to_owned_string(k1), v1), (text::to_owned_string(k2), v2)]);
    assert(keys_of(r) =~= seq![k1@, k2@]);
    r
}

/// The object `{k1: v1, k2: v2, k3: v3}`.
pub fn object3(k1: &str, v1: Json, k2: &str, v2: Json, k3: &str, v3: Json) -> (r: Json)
    requires
        k1@ != k2@,
        k1@ != k3@,
        k2@ != k3@,
    ensures
        keys_of(r) == seq![k1@, k2@, k3@],
        r.get_spec(k1@) == Some(v1),
        r.get_spec(k2@) == Some(v2),
        r.get_spec(k3@) == Some(v3),
{
    proof {
        reveal_with_fuel(member_index_from, 4);
    }
    let r = Json::Object(vec![
        (text::to_owned_string(k1), v1),
        (text::to_owned_string(k2), v2),
        (text::to_owned_string(k3), v3),
    ]);
    assert(keys_of(r) =~= seq![k1@, k2@, k3@]);
    r
}

/// The object `{k1: v1, k2: v2, k3: v3, k4: v4}`.
pub fn object4(k1: &str, v1: Json, k2: &str, v2: Json, k3: &str, v3: Json, k4: &str, v4: Json) -> (r: Json)
    requires
        k1@ != k2@,
        k1@ != k3@,
        k1@ != k4@,
        k2@ != k3@,
        k2@ != k4@,
        k3@ != k4@,
    ensures
        keys_of(r) == seq![k1@, k2@, k3@, k4@],
        r.get_spec(k1@) == Some(v1),
        r.get_spec(k2@) == Some(v2),
        r.get_spec(k3@) == Some(v3),
        r.get_spec(k4@) == Some(v4),
{
    proof {
        reveal_with_fuel(member_index_from, 5);
    }
    let r = Json::Object(vec![
        (text::to_owned_string(k1), v1),
        (text::to_owned_string(k2), v2),
        (text::to_owned_string(k3), v3),
        (text::to_owned_string(k4), v4),
    ]);
    assert(keys_of(r) =~= seq![k1@, k2@, k3@, k4@]);
    r
}


proof fn lemma_member_index_distinct(m: Seq<(String, Json)>, i: int, j: int)
    requires
        0 <= j <= i < m.len(),
        forall|a: int| j <= a < i ==> (#[trigger] m[a]).0@ != m[i].0@,
    ensures
        member_index_from(m, m[i].0@, j) == Some(i),
    decreases i - j,
{
    if j < i {
        lemma_member_index_distinct(m, i, j + 1);
    }
}

/// Keys that occur once each.
pub open spec fn distinct_keys(m: Seq<(String, Json)>) -> bool {
    forall|a: int, b: int| 0 <= a < b < m.len() ==> (#[trigger] m[a]).0@ != (#[trigger] m[b]).0@
}

/// In an object whose keys occur once each, every key finds its own value.
pub proof fn lemma_object_lookup(m: Vec<(String, Json)>)
    requires
        distinct_keys(m@),
    ensures
        forall|i: int| 0 <= i < m@.len() ==> Json::Object(m).get_spec((#[trigger] m@[i]).0@) == Some(m@[i].1),
{
    assert forall|i: int| 0 <= i < m@.len() implies Json::Object(m).get_spec((#[trigger] m@[i]).0@) == Some(m@[i].1) by {
        assert forall|a: int| 0 <= a < i implies (#[trigger] m@[a]).0@ != m@[i].0@ by {
            assert(m@[a].0@ != m@[i].0@);
        }
        lemma_member_index_distinct(m@, i, 0);
    }
}

/// Moves the members `keys` out of `o`, in the order of `keys`, `null`
/// standing for each absent one; the other members of `o` stay.
pub fn take_members(o: &mut Json, keys: &[&str]) -> (r: Vec<(String, Json)>)
    requires
        forall|a: int, b: int| 0 <= a < b < keys@.len() ==> (#[trigger] keys@[a])@ != (#[trigger] keys@[b])@,
    ensures
        r@.len() == keys@.len(),
        forall|j: int| 0 <= j < keys@.len() ==> (#[trigger] r@[j]).0@ == keys@[j]@
            && r@[j].1 == member_or_null(*old(o), keys@[j]@),
{
    let ghost o0 = *o;
    let mut out: Vec<(String, Json)> = Vec::new();
    let mut j: usize = 0;
    while j < keys.len()
        invariant
            j <= keys@.len(),
            o0 == *old(o),
            forall|a: int, b: int| 0 <= a < b < keys@.len() ==> (#[trigger] keys@[a])@ != (#[trigger] keys@[b])@,
            out@.len() == j,
            forall|i: int| 0 <= i < j ==> (#[trigger] out@[i]).0@ == keys@[i]@ && out@[i].1 == member_or_null(o0, keys@[i]@),
            forall|i: int| j <= i < keys@.len() ==> o.get_spec((#[trigger] keys@[i])@) == o0.get_spec(keys@[i]@),
        decreases keys@.len() - j,
    {
        let k = keys[j];
        let ghost before = *o;
        let v = match take_member(o, k) {
            Some(v) => v,
            None => Json::Null,
        };
        assert forall|i: int| j + 1 <= i < keys@.len() implies o.get_spec((#[trigger] keys@[i])@) == o0.get_spec(keys@[i]@) by {
            assert(keys@[i]@ != keys@[j as int]@);
            assert(o.get_spec(keys@[i]@) == before.get_spec(keys@[i]@));
        }
        out.push((text::to_owned_string(k), v));
        j = j + 1;
    }
    out
}

/// The elements of the array member `key` of `v`; none when `v` has no such
/// array.
pub fn member_array(v: Json, key: &str) -> (r: Vec<Json>)
    ensures
        match v.get_spec(key@) {
            Some(Json::Array(a)) => r@ == a@,
            _ => r@.len() == 0,
        },
{
    match into_member(v, key) {
        Some(Json::Array(a)) => a,
        _ => Vec::new(),
    }
}


/// A key that no member of an object carries finds nothing.
pub proof fn lemma_absent_key(v: Json, k: Seq<char>)
    requires
        !keys_of(v).contains(k),
    ensures
        v.get_spec(k) is None,
{
    if let Json::Object(m) = v {
        lemma_member_index_bounds(m@, k, 0);
        if let Some(x) = member_index_from(m@, k, 0) {
            assert(keys_of(v)[x] == k);
        }
    }
}


proof fn lemma_member_index_found(m: Seq<(String, Json)>, k: Seq<char>, j: int, i: int)
    requires
        0 <= j <= i < m.len(),
        m[i].0@ == k,
    ensures
        member_index_from(m, k, j) is Some,
    decreases i - j,
{
    if j < i && m[j].0@ != k {
        lemma_member_index_found(m, k, j + 1, i);
    }
}

/// A key that some member of an object carries finds a value.
pub proof fn lemma_present_key(v: Json, k: Seq<char>)
    requires
        keys_of(v).contains(k),
    ensures
        v.get_spec(k) is Some,
{
    if let Json::Object(m) = v {
        let i = choose|i: int| 0 <= i < keys_of(v).len() && keys_of(v)[i] == k;
        lemma_member_index_found(m@, k, 0, i);
    }
}

} // verus!
