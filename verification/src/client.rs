//! The coordinator's HTTP API as the agent uses it: request URLs, the path
//! that request signatures cover, and how responses are read.
use vstd::prelude::*;
use crate::json::{self, Json};
use crate::text;

verus! {

/// The URL of `path` on the coordinator at `base_url`.
pub fn request_url(base_url: &str, path: &str) -> (r: String)
    ensures
        r@ == base_url@ + path@,
{
    text::concat2(base_url, path)
}

/// The URL of the coordinator's health endpoint.
pub fn health_url(base_url: &str) -> (r: String)
    ensures
        r@ == base_url@ + "/api/v1/feed/stats"@,
{
    text::concat2(base_url, "/api/v1/feed/stats")
}

/// The part of `path` before the query string (the server verifies
/// signatures over the path only).
pub open spec fn signing_path_spec(path: Seq<char>) -> Seq<char> {
    match text::find_first(path, seq!['?']) {
        Some(i) => path.take(i),
        None => path,
    }
}

/// The part of `path` that request signatures cover.
pub fn signing_path(path: &str) -> (r: String)
    ensures
        r@ == signing_path_spec(path@),
{
    let v = text::chars_of(path);
    let q = vec!['?'];
    assert(q@ == seq!['?']);
    match text::find_chars(&v, &q) {
        Some(i) => {
            let mut out: Vec<char> = Vec::new();
            let mut k: usize = 0;
            while k < i
                invariant
                    k <= i,
                    i + 1 <= v@.len(),
                    out@ == v@.take(k as int),
                decreases i - k,
            {
                out.push(v[k]);
                k = k + 1;
                assert(v@.take(k as int) == v@.take(k - 1).push(v@[k - 1]));
            }
            text::string_of(&out)
        },
        None => text::string_of(&v),
    }
}

/// How a response from the coordinator reads.
#[derive(Debug, PartialEq)]
pub enum Response {
    /// Status 200 or 201 with a JSON body.
    Accepted(Json),
    /// The body is not JSON.
    NotJson,
    /// Another status with a JSON body; the server's message, when it gave
    /// one (`error.message`, else `message`).
    Rejected { body: Json, server_message: Option<String> },
}

/// The server's message in an error body: `error.message`, else `message`.
pub open spec fn server_message_spec(body: Json) -> Option<Seq<char>> {
    match body.nested("error"@, "message"@) {
        Some(m) if m.str_spec() is Some => m.str_spec(),
        _ => body.field_str("message"@),
    }
}

/// Reads a response: a JSON body is required; only 200 and 201 count as
/// success.
pub fn read_response(status: u16, body_text: &str) -> (r: Response)
    ensures
        match json::json_parse(body_text@) {
            None => r is NotJson,
            Some(b) => if status == 200 || status == 201 {
                r == Response::Accepted(b)
            } else {
                r matches Response::Rejected { body, server_message } && body == b
                    && match server_message_spec(b) {
                        Some(m) => server_message is Some && server_message.unwrap()@ == m,
                        None => server_message is None,
                    }
            },
        },
{
    let body = match json::parse_json(body_text) {
        Some(b) => b,
        None => {
            return Response::NotJson;
        },
    };
    if status == 200 || status == 201 {
        return Response::Accepted(body);
    }
    let msg = {
        let nested = match body.nested_exec("error", "message") {
            Some(m) => m.as_str(),
            None => None,
        };
        match nested {
            Some(m) => Some(text::to_owned_string(m)),
            None => match body.field_str_exec("message") {
                Some(m) => Some(text::to_owned_string(m)),
                None => None,
            },
        }
    };
    Response::Rejected { body, server_message: msg }
}


proof fn lemma_find_char(s: Seq<char>, c: char, from: int)
    requires
        0 <= from,
    ensures
        match text::find_from(s, seq![c], from) {
            Some(i) => from <= i < s.len() && s[i] == c && forall|j: int| from <= j < i ==> s[j] != c,
            None => forall|j: int| from <= j < s.len() ==> s[j] != c,
        },
    decreases s.len() - from,
{
    if from < s.len() {
        assert(text::matches_at(s, seq![c], from) <==> s[from] == c) by {
            if s[from] == c {
                assert(s.subrange(from, from + 1) =~= seq![c]);
            } else {
                assert(s.subrange(from, from + 1)[0] != seq![c][0]);
            }
        }
        lemma_find_char(s, c, from + 1);
    }
}

/// The signed path is the part of the request path before its query string:
/// a prefix of the path without `?`, followed in the path by nothing or by
/// the `?` that starts the query.
pub proof fn lemma_signing_path_is_path_part(path: Seq<char>)
    ensures
        signing_path_spec(path).len() <= path.len(),
        path.take(signing_path_spec(path).len() as int) == signing_path_spec(path),
        forall|i: int| 0 <= i < signing_path_spec(path).len() ==> signing_path_spec(path)[i] != '?',
        signing_path_spec(path).len() < path.len() ==> path[signing_path_spec(path).len() as int] == '?',
{
    lemma_find_char(path, '?', 0);
    assert(path.take(path.len() as int) =~= path);
}

} // verus!
