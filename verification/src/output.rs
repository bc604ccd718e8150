//! The one JSON object every command prints: `ok`, a human-readable
//! `user_message`, command data on success, error details on failure, and
//! hints for the driving agent under `_internal`.
use vstd::prelude::*;
use crate::json::Json;
use crate::text;

verus! {

/// The result of a command.
#[derive(Debug, PartialEq)]
pub struct Output {
    pub ok: bool,
    pub user_message: String,
    /// Command-specific payload; absent on error.
    pub data: Option<Json>,
    /// Error details; absent on success.
    pub error: Option<ErrorDetail>,
    /// Hints for the driving agent.
    pub _internal: Internal,
}

/// What went wrong, and what to do about it.
#[derive(Debug, PartialEq)]
pub struct ErrorDetail {
    pub code: String,
    pub category: String,
    pub retryable: bool,
    pub suggestion: String,
    /// Extra diagnostics (URLs tried, raw responses, and the like).
    pub debug: Option<Json>,
}

/// An option offered to the user (a persona, a mode).
#[derive(Debug, PartialEq)]
pub struct Choice {
    pub key: String,
    pub label: String,
    pub description: String,
    pub command: Option<String>,
}

/// Hints for the agent that drives the command line.
#[derive(Debug, PartialEq)]
pub struct Internal {
    pub next_action: String,
    pub next_command: Option<String>,
    pub wait_seconds: Option<u64>,
    pub submittable_markets: Option<Vec<String>>,
    pub context: Option<Json>,
    /// Progress indicator such as `2/4`.
    pub progress: Option<String>,
    pub options: Option<Vec<Choice>>,
}

/// Text view of an optional string.
pub open spec fn opt_text(o: Option<String>) -> Option<Seq<char>> {
    match o {
        Some(s) => Some(s@),
        None => None,
    }
}

impl Internal {
    /// Every hint absent, `next_action` set to `next_action`, `next_command`
    /// to `next_command` and `wait_seconds` to `wait_seconds`.
    pub open spec fn is_hint(self, next_action: Seq<char>, next_command: Option<Seq<char>>, wait_seconds: Option<u64>) -> bool {
        &&& self.next_action@ == next_action
        &&& opt_text(self.next_command) == next_command
        &&& self.wait_seconds == wait_seconds
        &&& self.submittable_markets is None
        &&& self.context is None
        &&& self.progress is None
        &&& self.options is None
    }

    /// Hints with the given next action, next command and wait, the rest absent.
    pub fn hint(next_action: &str, next_command: Option<String>, wait_seconds: Option<u64>) -> (r: Internal)
        ensures
            r.is_hint(next_action@, opt_text(next_command), wait_seconds),
    {
        Internal {
            next_action: text::to_owned_string(next_action),
            next_command,
            wait_seconds,
            submittable_markets: None,
            context: None,
            progress: None,
            options: None,
        }
    }
}

impl Default for Internal {
    /// No hints: an empty next action, every other hint absent.
    fn default() -> (r: Internal)
        ensures
            r.is_hint(Seq::empty(), None, None),
    {
        Internal {
            next_action: String::new(),
            next_command: None,
            wait_seconds: None,
            submittable_markets: None,
            context: None,
            progress: None,
            options: None,
        }
    }
}

impl Output {
    /// A successful result carrying `data`.
    pub fn success(user_message: String, data: Json, internal: Internal) -> (r: Output)
        ensures
            r.ok,
            r.user_message == user_message,
            r.data == Some(data),
            r.error is None,
            r._internal == internal,
    {
        Output { ok: true, user_message, data: Some(data), error: None, _internal: internal }
    }

    /// A failed result.
    pub fn error(
        user_message: String,
        code: String,
        category: String,
        retryable: bool,
        suggestion: String,
        internal: Internal,
    ) -> (r: Output)
        ensures
            !r.ok,
            r.user_message == user_message,
            r.data is None,
            r.error == Some(ErrorDetail { code, category, retryable, suggestion, debug: None }),
            r._internal == internal,
    {
        Output {
            ok: false,
            user_message,
            data: None,
            error: Some(ErrorDetail { code, category, retryable, suggestion, debug: None }),
            _internal: internal,
        }
    }

    /// A failed result with diagnostic details attached.
    pub fn error_with_debug(
        user_message: String,
        code: String,
        category: String,
        retryable: bool,
        suggestion: String,
        debug: Json,
        internal: Internal,
    ) -> (r: Output)
        ensures
            !r.ok,
            r.user_message == user_message,
            r.data is None,
            r.error == Some(ErrorDetail { code, category, retryable, suggestion, debug: Some(debug) }),
            r._internal == internal,
    {
        Output {
            ok: false,
            user_message,
            data: None,
            error: Some(ErrorDetail { code, category, retryable, suggestion, debug: Some(debug) }),
            _internal: internal,
        }
    }

    /// `!ok`, with the given texts and flag, and debug details attached.
    pub open spec fn is_failure(
        self,
        user_message: Seq<char>,
        code: Seq<char>,
        category: Seq<char>,
        retryable: bool,
        suggestion: Seq<char>,
    ) -> bool {
        &&& !self.ok
        &&& self.user_message@ == user_message
        &&& self.data is None
        &&& self.error is Some
        &&& self.error.unwrap().code@ == code
        &&& self.error.unwrap().category@ == category
        &&& self.error.unwrap().retryable == retryable
        &&& self.error.unwrap().suggestion@ == suggestion
        &&& self.error.unwrap().debug is Some
    }

    /// `ok`, with the given message and data present.
    pub open spec fn is_success(self, user_message: Seq<char>) -> bool {
        &&& self.ok
        &&& self.user_message@ == user_message
        &&& self.data is Some
        &&& self.error is None
    }

    /// The debug details of a failure.
    pub open spec fn debug_spec(self) -> Json {
        self.error.unwrap().debug.unwrap()
    }

    /// The data of a success.
    pub open spec fn data_spec(self) -> Json {
        self.data.unwrap()
    }
}

} // verus!
