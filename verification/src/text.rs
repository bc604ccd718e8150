//! Character-level string helpers used throughout the agent.
//!
//! Text is handled as sequences of `char`s: the mathematical model of a
//! `str` or `String` is its `Seq<char>` view.
use vstd::prelude::*;
use vstd::std_specs::iter::IteratorSpec;

verus! {

broadcast use vstd::string::group_string_axioms;

// ---------------------------------------------------------------------------
// Specifications
// ---------------------------------------------------------------------------

/// `p` occurs in `s` starting at index `i`.
pub open spec fn matches_at(s: Seq<char>, p: Seq<char>, i: int) -> bool {
    0 <= i && i + p.len() <= s.len() && s.subrange(i, i + p.len()) == p
}

/// The first index at or after `from` where `p` occurs in `s`.
pub open spec fn find_from(s: Seq<char>, p: Seq<char>, from: int) -> Option<int>
    decreases s.len() + 1 - from,
{
    if from < 0 || from + p.len() > s.len() {
        None
    } else if matches_at(s, p, from) {
        Some(from)
    } else {
        find_from(s, p, from + 1)
    }
}

/// The first index where `p` occurs in `s`.
pub open spec fn find_first(s: Seq<char>, p: Seq<char>) -> Option<int> {
    find_from(s, p, 0)
}

/// `p` occurs somewhere in `s`.
pub open spec fn contains(s: Seq<char>, p: Seq<char>) -> bool {
    find_first(s, p) is Some
}

/// The last index at or before `upto` holding the character `c`.
pub open spec fn rfind_char_upto(s: Seq<char>, c: char, upto: int) -> Option<int>
    decreases upto + 1,
{
    if upto < 0 {
        None
    } else if upto < s.len() && s[upto] == c {
        Some(upto)
    } else {
        rfind_char_upto(s, c, upto - 1)
    }
}

/// The last index of the character `c` in `s`.
pub open spec fn rfind_char(s: Seq<char>, c: char) -> Option<int> {
    rfind_char_upto(s, c, s.len() - 1)
}

/// Characters with the Unicode `White_Space` property (what `char::is_whitespace` accepts).
pub open spec fn is_white_space(c: char) -> bool {
    ||| ('\u{9}' <= c && c <= '\u{d}')
    ||| c == ' '
    ||| c == '\u{85}'
    ||| c == '\u{a0}'
    ||| c == '\u{1680}'
    ||| ('\u{2000}' <= c && c <= '\u{200a}')
    ||| c == '\u{2028}'
    ||| c == '\u{2029}'
    ||| c == '\u{202f}'
    ||| c == '\u{205f}'
    ||| c == '\u{3000}'
}

/// Number of leading white-space characters of `s`.
pub open spec fn leading_ws(s: Seq<char>) -> nat
    decreases s.len(),
{
    if s.len() > 0 && is_white_space(s[0]) {
        1 + leading_ws(s.drop_first())
    } else {
        0
    }
}

/// Number of trailing white-space characters of `s`.
pub open spec fn trailing_ws(s: Seq<char>) -> nat
    decreases s.len(),
{
    if s.len() > 0 && is_white_space(s.last()) {
        1 + trailing_ws(s.drop_last())
    } else {
        0
    }
}

/// `s` without leading and trailing white space (what `str::trim` returns).
pub open spec fn trim(s: Seq<char>) -> Seq<char> {
    let t = s.skip(leading_ws(s) as int);
    t.take(t.len() - trailing_ws(t))
}

/// The decimal digit character for `d < 10`.
pub open spec fn digit_char(d: int) -> char {
    (('0' as int) + d) as char
}

/// Decimal representation of a natural number, without leading zeros.
pub open spec fn dec_nat(n: nat) -> Seq<char>
    decreases n,
{
    if n < 10 {
        seq![digit_char(n as int)]
    } else {
        dec_nat(n / 10) + seq![digit_char((n % 10) as int)]
    }
}

/// Decimal representation of an integer (what `Display` prints for integers).
pub open spec fn dec_int(i: int) -> Seq<char> {
    if i < 0 {
        seq!['-'] + dec_nat((-i) as nat)
    } else {
        dec_nat(i as nat)
    }
}

/// `c` is an ASCII decimal digit.
pub open spec fn is_digit(c: char) -> bool {
    '0' <= c && c <= '9'
}

/// Value of a non-empty string of decimal digits.
pub open spec fn digits_value(s: Seq<char>) -> nat
    decreases s.len(),
{
    if s.len() == 0 {
        0
    } else {
        digits_value(s.drop_last()) * 10 + ((s.last() as int) - ('0' as int)) as nat
    }
}

/// Every character of `s` is a decimal digit.
pub open spec fn all_digits(s: Seq<char>) -> bool {
    forall|i: int| 0 <= i < s.len() ==> is_digit(#[trigger] s[i])
}

/// `s` without one leading `+`, if it has one.
pub open spec fn without_plus(s: Seq<char>) -> Seq<char> {
    if s.len() > 0 && s[0] == '+' {
        s.drop_first()
    } else {
        s
    }
}

/// What `str::parse::<u64>` returns: an optional `+`, then at least one digit,
/// the value not above `u64::MAX`.
pub open spec fn parse_u64_spec(s: Seq<char>) -> Option<u64> {
    let d = without_plus(s);
    if d.len() > 0 && all_digits(d) && digits_value(d) <= u64::MAX {
        Some(digits_value(d) as u64)
    } else {
        None
    }
}

/// `s` cut to its first `max` characters, with `suffix` appended when
/// something was cut.
pub open spec fn truncated(s: Seq<char>, max: nat, suffix: Seq<char>) -> Seq<char> {
    if s.len() <= max {
        s
    } else {
        s.take(max as int) + suffix
    }
}

// ---------------------------------------------------------------------------
// Conversions between `str`/`String` and vectors of characters
// ---------------------------------------------------------------------------

/// Number of characters (Unicode scalar values) of `s`.
pub fn char_count(s: &str) -> (n: usize)
    ensures
        n == s@.len(),
{
    chars_of(s).len()
}

/// The characters of `s`, in order.
pub fn chars_of(s: &str) -> (r: Vec<char>)
    ensures
        r@ == s@,
{
    let mut v: Vec<char> = Vec::new();
    for c in it: s.chars()
        invariant
            v@ == it.seq().take(it.index() as int),
    {
        v.push(c);
    }
    v
}

/// Appends one character to a `String`.
#[verifier::external_body]
fn string_push(s: &mut String, c: char)
    ensures
        final(s)@ == old(s)@.push(c),
{
    s.push(c);
}

/// The `String` made of the characters `v`.
pub fn string_of(v: &[char]) -> (r: String)
    ensures
        r@ == v@,
{
    let mut s = String::new();
    let mut i: usize = 0;
    while i < v.len()
        invariant
            i <= v@.len(),
            s@ == v@.take(i as int),
        decreases v@.len() - i,
    {
        string_push(&mut s, v[i]);
        i = i + 1;
        assert(v@.take(i as int) == v@.take(i - 1).push(v@[i - 1]));
    }
    assert(v@.take(v@.len() as int) == v@);
    s
}

/// Appends the characters of `s` to `out`.
pub fn push_str(out: &mut Vec<char>, s: &str)
    ensures
        final(out)@ == old(out)@ + s@,
{
    let ghost start = out@;
    for c in it: s.chars()
        invariant
            out@ == start + it.seq().take(it.index() as int),
    {
        out.push(c);
    }
}

/// Appends the characters of `s` to `out`.
pub fn push_chars(out: &mut Vec<char>, s: &[char])
    ensures
        final(out)@ == old(out)@ + s@,
{
    let ghost start = out@;
    let mut i: usize = 0;
    while i < s.len()
        invariant
            i <= s@.len(),
            out@ == start + s@.take(i as int),
        decreases s@.len() - i,
    {
        out.push(s[i]);
        i = i + 1;
        assert(s@.take(i as int) == s@.take(i - 1).push(s@[i - 1]));
    }
    assert(s@.take(s@.len() as int) == s@);
}

/// The concatenation of `a` and `b`.
pub fn concat2(a: &str, b: &str) -> (r: String)
    ensures
        r@ == a@ + b@,
{
    let mut v = chars_of(a);
    push_str(&mut v, b);
    string_of(&v)
}

/// The concatenation of `a`, `b` and `c`.
pub fn concat3(a: &str, b: &str, c: &str) -> (r: String)
    ensures
        r@ == a@ + b@ + c@,
{
    let mut v = chars_of(a);
    push_str(&mut v, b);
    push_str(&mut v, c);
    string_of(&v)
}

/// A copy of `s`.
pub fn to_owned_string(s: &str) -> (r: String)
    ensures
        r@ == s@,
{
    let v = chars_of(s);
    string_of(&v)
}

// ---------------------------------------------------------------------------
// Search
// ---------------------------------------------------------------------------

/// Whether `p` occurs in `s` at index `i`.
fn matches_at_exec(s: &[char], p: &[char], i: usize) -> (r: bool)
    requires
        i + p@.len() <= s@.len(),
    ensures
        r == matches_at(s@, p@, i as int),
{
    let mut k: usize = 0;
    while k < p.len()
        invariant
            i + p@.len() <= s@.len(),
            k <= p@.len(),
            forall|j: int| 0 <= j < k ==> s@[i + j] == p@[j],
        decreases p@.len() - k,
    {
        let n = s.len();
        assert(i + k < n);
        if s[i + k] != p[k] {
            assert(s@.subrange(i as int, i + p@.len())[k as int] != p@[k as int]);
            return false;
        }
        k = k + 1;
    }
    assert(s@.subrange(i as int, i + p@.len()) =~= p@);
    true
}

proof fn lemma_find_from_skip(s: Seq<char>, p: Seq<char>, from: int, to: int)
    requires
        0 <= from <= to,
        forall|j: int| from <= j < to ==> !matches_at(s, p, j),
    ensures
        find_from(s, p, from) == find_from(s, p, to),
    decreases to - from,
{
    if from < to {
        lemma_find_from_skip(s, p, from + 1, to);
    }
}

/// Where `find_from` finds `p`, `p` lies within `s`, at or after `from`.
pub proof fn lemma_find_from_range(s: Seq<char>, p: Seq<char>, from: int)
    ensures
        find_from(s, p, from) matches Some(i) ==> 0 <= from <= i && i + p.len() <= s.len(),
    decreases s.len() + 1 - from,
{
    if !(from < 0 || from + p.len() > s.len()) && !matches_at(s, p, from) {
        lemma_find_from_range(s, p, from + 1);
    }
}

/// A search from `from` finds `p` when it occurs at or after `from`.
pub proof fn lemma_match_found(s: Seq<char>, p: Seq<char>, from: int, i: int)
    requires
        0 <= from <= i,
        matches_at(s, p, i),
    ensures
        find_from(s, p, from) is Some,
    decreases i - from,
{
    if from < i && !matches_at(s, p, from) {
        lemma_match_found(s, p, from + 1, i);
    }
}

/// No position of `s` at or after `k` holds `a` directly followed by `b`.
pub open spec fn pair_free_from(s: Seq<char>, a: char, b: char, k: int) -> bool
    decreases s.len() - k,
{
    if k < 0 || k + 1 >= s.len() {
        true
    } else {
        !(s[k] == a && s[k + 1] == b) && pair_free_from(s, a, b, k + 1)
    }
}

/// A text in which the first two characters of `p` never stand side by side
/// does not contain `p`.
pub proof fn lemma_pair_free_absent(s: Seq<char>, p: Seq<char>, k: int)
    requires
        p.len() >= 2,
        0 <= k,
        pair_free_from(s, p[0], p[1], k),
    ensures
        find_from(s, p, k) is None,
    decreases s.len() - k,
{
    if k + p.len() <= s.len() {
        if matches_at(s, p, k) {
            assert(s.subrange(k, k + p.len())[0] == s[k]);
            assert(s.subrange(k, k + p.len())[1] == s[k + 1]);
        }
        lemma_pair_free_absent(s, p, k + 1);
    }
}

/// Where `rfind_char_upto` finds `c`, it lies within `s`, at or before `upto`.
pub proof fn lemma_rfind_char_range(s: Seq<char>, c: char, upto: int)
    ensures
        rfind_char_upto(s, c, upto) matches Some(i) ==> 0 <= i <= upto && i < s.len() && s[i] == c,
    decreases upto + 1,
{
    if upto >= 0 && !(upto < s.len() && s[upto] == c) {
        lemma_rfind_char_range(s, c, upto - 1);
    }
}

/// The first index at or after `from` where `p` occurs in `s`.
pub fn find_chars_from(s: &[char], p: &[char], from: usize) -> (r: Option<usize>)
    ensures
        r matches Some(i) ==> i + p@.len() <= s@.len(),
        match r {
            Some(x) => find_from(s@, p@, from as int) == Some(x as int),
            None => find_from(s@, p@, from as int) is None,
        },
{
    if p.len() > s.len() {
        proof {
            reveal_with_fuel(find_from, 2);
        }
        return None;
    }
    if p.len() == 0 {
        if from <= s.len() {
            assert(matches_at(s@, p@, from as int)) by {
                assert(s@.subrange(from as int, from as int) =~= p@);
            }
            return Some(from);
        }
        return None;
    }
    let n = s.len();
    let last = n - p.len();
    let mut i = from;
    while i <= last
        invariant
            last + p@.len() == s@.len(),
            p@.len() > 0,
            n == s@.len(),
            from <= i,
            find_from(s@, p@, from as int) == find_from(s@, p@, i as int),
        decreases last + 1 - i,
    {
        if matches_at_exec(s, p, i) {
            return Some(i);
        }
        i = i + 1;
    }
    None
}

/// The first index where `p` occurs in `s`.
pub fn find_chars(s: &[char], p: &[char]) -> (r: Option<usize>)
    ensures
        r matches Some(i) ==> i + p@.len() <= s@.len(),
        match r {
            Some(x) => find_first(s@, p@) == Some(x as int),
            None => find_first(s@, p@) is None,
        },
{
    find_chars_from(s, p, 0)
}

/// The first index where `p` occurs in `s`.
pub fn find_str(s: &str, p: &str) -> (r: Option<usize>)
    ensures
        r matches Some(i) ==> i + p@.len() <= s@.len(),
        match r {
            Some(x) => find_first(s@, p@) == Some(x as int),
            None => find_first(s@, p@) is None,
        },
{
    let sv = chars_of(s);
    let pv = chars_of(p);
    find_chars(&sv, &pv)
}

/// Whether `p` occurs in `s` (what `str::contains` answers for a string pattern).
pub fn contains_str(s: &str, p: &str) -> (r: bool)
    ensures
        r == contains(s@, p@),
{
    find_str(s, p).is_some()
}

/// The last index of `c` in `s`.
pub fn rfind_char_exec(s: &[char], c: char) -> (r: Option<usize>)
    ensures
        r matches Some(i) ==> i < s@.len() && s@[i as int] == c,
        match r {
            Some(x) => rfind_char(s@, c) == Some(x as int),
            None => rfind_char(s@, c) is None,
        },
{
    let mut i = s.len();
    while i > 0
        invariant
            i <= s@.len(),
            rfind_char(s@, c) == rfind_char_upto(s@, c, i - 1),
        decreases i,
    {
        if s[i - 1] == c {
            return Some(i - 1);
        }
        i = i - 1;
    }
    None
}

// ---------------------------------------------------------------------------
// Trimming and truncation
// ---------------------------------------------------------------------------

/// Whether `c` is Unicode white space.
pub fn is_white_space_exec(c: char) -> (r: bool)
    ensures
        r == is_white_space(c),
{
    ('\u{9}' <= c && c <= '\u{d}') || c == ' ' || c == '\u{85}' || c == '\u{a0}' || c == '\u{1680}'
        || ('\u{2000}' <= c && c <= '\u{200a}') || c == '\u{2028}' || c == '\u{2029}' || c
        == '\u{202f}' || c == '\u{205f}' || c == '\u{3000}'
}

proof fn lemma_leading_ws_bound(s: Seq<char>)
    ensures
        leading_ws(s) <= s.len(),
    decreases s.len(),
{
    if s.len() > 0 && is_white_space(s[0]) {
        lemma_leading_ws_bound(s.drop_first());
    }
}

proof fn lemma_trailing_ws_bound(s: Seq<char>)
    ensures
        trailing_ws(s) <= s.len(),
    decreases s.len(),
{
    if s.len() > 0 && is_white_space(s.last()) {
        lemma_trailing_ws_bound(s.drop_last());
    }
}

/// `trim(s)` is the part of `s` that starts after its leading white space.
pub proof fn lemma_trim_part(s: Seq<char>)
    ensures
        leading_ws(s) + trim(s).len() <= s.len(),
        trim(s) == s.subrange(leading_ws(s) as int, (leading_ws(s) + trim(s).len()) as int),
{
    lemma_leading_ws_bound(s);
    lemma_trailing_ws_bound(s.skip(leading_ws(s) as int));
    assert(trim(s) =~= s.subrange(leading_ws(s) as int, (leading_ws(s) + trim(s).len()) as int));
}

/// `s` without leading and trailing white space (what `str::trim` returns).
pub fn trim_chars(s: &[char]) -> (r: Vec<char>)
    ensures
        r@ == trim(s@),
{
    let mut a: usize = 0;
    assert(s@.skip(0) == s@);
    while a < s.len() && is_white_space_exec(s[a])
        invariant
            a <= s@.len(),
            leading_ws(s@) == a + leading_ws(s@.skip(a as int)),
        decreases s@.len() - a,
    {
        assert(s@.skip(a as int).drop_first() == s@.skip(a + 1));
        a = a + 1;
    }
    let ghost t = s@.skip(a as int);
    assert(leading_ws(t) == 0);
    let mut b: usize = s.len();
    while b > a && is_white_space_exec(s[b - 1])
        invariant
            a <= b <= s@.len(),
            t == s@.skip(a as int),
            trailing_ws(t) == (s@.len() - b) + trailing_ws(s@.subrange(a as int, b as int)),
        decreases b,
    {
        assert(s@.subrange(a as int, b as int).drop_last() == s@.subrange(a as int, b - 1));
        b = b - 1;
    }
    let mut out: Vec<char> = Vec::new();
    let mut k = a;
    while k < b
        invariant
            a <= k <= b <= s@.len(),
            out@ == s@.subrange(a as int, k as int),
        decreases b - k,
    {
        out.push(s[k]);
        k = k + 1;
    }
    assert(s@.subrange(a as int, b as int) == t.take(t.len() - trailing_ws(t)));
    out
}

/// `s` without leading and trailing white space (what `str::trim` returns).
pub fn trim_str(s: &str) -> (r: String)
    ensures
        r@ == trim(s@),
{
    let v = chars_of(s);
    let t = trim_chars(&v);
    string_of(&t)
}

/// `s` cut to its first `max_chars` characters, with `suffix` appended when
/// something was cut.
pub fn truncate_with(s: &str, max_chars: usize, suffix: &str) -> (r: String)
    ensures
        r@ == truncated(s@, max_chars as nat, suffix@),
{
    let v = chars_of(s);
    if v.len() <= max_chars {
        string_of(&v)
    } else {
        let mut out: Vec<char> = Vec::new();
        let mut i: usize = 0;
        while i < max_chars
            invariant
                i <= max_chars < v@.len(),
                out@ == v@.take(i as int),
            decreases max_chars - i,
        {
            out.push(v[i]);
            i = i + 1;
            assert(v@.take(i as int) == v@.take(i - 1).push(v@[i - 1]));
        }
        push_str(&mut out, suffix);
        string_of(&out)
    }
}

/// Truncates `s` to at most `max_chars` characters (not bytes), marking a
/// cut with `...`.
pub fn truncate_str(s: &str, max_chars: usize) -> (r: String)
    ensures
        r@ == truncated(s@, max_chars as nat, "..."@),
{
    truncate_with(s, max_chars, "...")
}

/// Truncates `s` to at most `max_chars` characters (not bytes), marking a
/// cut with `...(truncated)`.
pub fn truncate_str_marked(s: &str, max_chars: usize) -> (r: String)
    ensures
        r@ == truncated(s@, max_chars as nat, "...(truncated)"@),
{
    truncate_with(s, max_chars, "...(truncated)")
}

/// The first `n` characters of `s` (what `s.chars().take(n).collect()` gives).
pub fn take_chars(s: &str, n: usize) -> (r: String)
    ensures
        r@ == s@.take(if n <= s@.len() { n as int } else { s@.len() as int }),
{
    let v = chars_of(s);
    let m = if n <= v.len() { n } else { v.len() };
    let mut out: Vec<char> = Vec::new();
    let mut i: usize = 0;
    while i < m
        invariant
            i <= m <= v@.len(),
            out@ == v@.take(i as int),
        decreases m - i,
    {
        out.push(v[i]);
        i = i + 1;
        assert(v@.take(i as int) == v@.take(i - 1).push(v@[i - 1]));
    }
    string_of(&out)
}

// ---------------------------------------------------------------------------
// Decimal numbers
// ---------------------------------------------------------------------------

/// Appends the decimal representation of `n`.
pub fn push_u64(out: &mut Vec<char>, n: u64)
    ensures
        final(out)@ == old(out)@ + dec_nat(n as nat),
    decreases n,
{
    if n < 10 {
        out.push(digit_of(n));
    } else {
        push_u64(out, n / 10);
        out.push(digit_of(n % 10));
    }
}

fn digit_of(d: u64) -> (c: char)
    requires
        d < 10,
    ensures
        c == digit_char(d as int),
{
    if d == 0 { '0' }
    else if d == 1 { '1' }
    else if d == 2 { '2' }
    else if d == 3 { '3' }
    else if d == 4 { '4' }
    else if d == 5 { '5' }
    else if d == 6 { '6' }
    else if d == 7 { '7' }
    else if d == 8 { '8' }
    else { '9' }
}

/// Appends the decimal representation of `i`.
pub fn push_i64(out: &mut Vec<char>, i: i64)
    ensures
        final(out)@ == old(out)@ + dec_int(i as int),
{
    if i < 0 {
        out.push('-');
        let m: u64 = if i == i64::MIN { 9223372036854775808u64 } else { (-i) as u64 };
        push_u64(out, m);
    } else {
        push_u64(out, i as u64);
    }
}

/// The decimal representation of `n`.
pub fn u64_to_string(n: u64) -> (r: String)
    ensures
        r@ == dec_nat(n as nat),
{
    let mut v: Vec<char> = Vec::new();
    push_u64(&mut v, n);
    string_of(&v)
}

/// The decimal representation of `i`.
pub fn i64_to_string(i: i64) -> (r: String)
    ensures
        r@ == dec_int(i as int),
{
    let mut v: Vec<char> = Vec::new();
    push_i64(&mut v, i);
    string_of(&v)
}

proof fn lemma_digits_value_push(s: Seq<char>, c: char)
    ensures
        digits_value(s.push(c)) == digits_value(s) * 10 + ((c as int) - ('0' as int)) as nat,
{
    assert(s.push(c).drop_last() == s);
}

/// What `str::parse::<u64>` returns for `s`.
pub fn parse_u64(s: &str) -> (r: Option<u64>)
    ensures
        r == parse_u64_spec(s@),
{
    let v = chars_of(s);
    let start: usize = if v.len() > 0 && v[0] == '+' { 1 } else { 0 };
    let ghost d = without_plus(v@);
    assert(d == v@.skip(start as int));
    if start >= v.len() {
        assert(d.len() == 0);
        return None;
    }
    let mut acc: u64 = 0;
    let mut i = start;
    while i < v.len()
        invariant
            start <= i <= v@.len(),
            v@ == s@,
            d == without_plus(v@),
            d == v@.skip(start as int),
            forall|j: int| start <= j < i ==> is_digit(#[trigger] v@[j]),
            acc as nat == digits_value(v@.subrange(start as int, i as int)),
        decreases v@.len() - i,
    {
        let c = v[i];
        if !('0' <= c && c <= '9') {
            assert(d[i - start] == c);
            assert(!is_digit(d[i - start]));
            return None;
        }
        let dv: u64 = (c as u32 - '0' as u32) as u64;
        proof {
            lemma_digits_value_push(v@.subrange(start as int, i as int), c);
            assert(v@.subrange(start as int, i + 1) == v@.subrange(start as int, i as int).push(c));
        }
        if acc > 1844674407370955161u64 || (acc == 1844674407370955161u64 && dv > 5) {
            proof {
                if all_digits(d) {
                    lemma_digits_value_mono(d, i + 1 - start);
                    assert(d.take(i + 1 - start) == v@.subrange(start as int, i + 1));
                }
            }
            return None;
        }
        acc = acc * 10 + dv;
        i = i + 1;
    }
    assert(v@.subrange(start as int, v@.len() as int) == d);
    Some(acc)
}

proof fn lemma_digits_value_mono(s: Seq<char>, k: int)
    requires
        0 <= k <= s.len(),
        all_digits(s),
    ensures
        digits_value(s) >= digits_value(s.take(k)),
    decreases s.len(),
{
    if k < s.len() {
        let t = s.drop_last();
        assert forall|j: int| 0 <= j < t.len() implies is_digit(#[trigger] t[j]) by {
            assert(t[j] == s[j]);
        }
        lemma_digits_value_mono(t, k);
        assert(t.take(k) == s.take(k));
    } else {
        assert(s.take(k) == s);
    }
}

// ---------------------------------------------------------------------------
// Case mapping
// ---------------------------------------------------------------------------

/// ASCII-only lowercase mapping of one character.
pub open spec fn ascii_lower_char(c: char) -> char {
    if 'A' <= c && c <= 'Z' {
        ((c as int) + 32) as char
    } else {
        c
    }
}

/// ASCII-only uppercase mapping of one character.
pub open spec fn ascii_upper_char(c: char) -> char {
    if 'a' <= c && c <= 'z' {
        ((c as int) - 32) as char
    } else {
        c
    }
}

/// Every character of `s` is ASCII.
pub open spec fn all_ascii(s: Seq<char>) -> bool {
    forall|i: int| 0 <= i < s.len() ==> (#[trigger] s[i] as int) < 128
}

/// What `str::to_lowercase` returns for `s` (full Unicode case mapping).
pub uninterp spec fn lowercase(s: Seq<char>) -> Seq<char>;

/// What `str::to_uppercase` returns for `s` (full Unicode case mapping).
pub uninterp spec fn uppercase(s: Seq<char>) -> Seq<char>;

/// `str::to_lowercase`.  Its result is named `lowercase`; for ASCII text the
/// standard library documents it as mapping `A`-`Z` to `a`-`z` and keeping
/// every other character.  For other text the Unicode tables decide, which
/// this contract leaves unsaid.
#[verifier::external_body]
pub(crate) fn to_lowercase(s: &str) -> (r: String)
    ensures
        r@ == lowercase(s@),
        all_ascii(s@) ==> r@ == s@.map_values(|c: char| ascii_lower_char(c)),
{
    s.to_lowercase()
}

/// `str::to_uppercase`.  Its result is named `uppercase`; for ASCII text the
/// standard library documents it as mapping `a`-`z` to `A`-`Z` and keeping
/// every other character.  For other text the Unicode tables decide, which
/// this contract leaves unsaid.
#[verifier::external_body]
pub(crate) fn to_uppercase(s: &str) -> (r: String)
    ensures
        r@ == uppercase(s@),
        all_ascii(s@) ==> r@ == s@.map_values(|c: char| ascii_upper_char(c)),
{
    s.to_uppercase()
}

/// The text of `s` from the first occurrence of `c` on.
pub open spec fn from_first(s: Seq<char>, c: char) -> Option<Seq<char>> {
    match find_first(s, seq![c]) {
        Some(i) => Some(s.skip(i)),
        None => None,
    }
}

/// The text of `s` from the first occurrence of `c` on.
pub fn from_first_char(s: &str, c: char) -> (r: Option<String>)
    ensures
        match from_first(s@, c) {
            Some(t) => r is Some && r.unwrap()@ == t,
            None => r is None,
        },
{
    let v = chars_of(s);
    let p = vec![c];
    assert(p@ == seq![c]);
    let n = v.len();
    match find_chars(&v, &p) {
        Some(start) => {
            let mut tail: Vec<char> = Vec::new();
            let mut k = start;
            while k < v.len()
                invariant
                    start <= k <= v@.len(),
                    tail@ == v@.subrange(start as int, k as int),
                decreases v@.len() - k,
            {
                tail.push(v[k]);
                k = k + 1;
            }
            Some(string_of(&tail))
        },
        None => None,
    }
}

} // verus!
