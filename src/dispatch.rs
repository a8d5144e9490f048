use vstd::prelude::*;

use crate::provider_types::{ReplicaFuncStatus, ScaleParseError, ScaleServiceRequest};
use crate::text::{decimal_chars, decimal_string, str_eq};

verus! {

pub const HEALTH_PATH: &'static str = "/_/health";
pub const SCALE_READER_PATH: &'static str = "/scale-reader";
pub const SCALE_UPDATER_PATH: &'static str = "/scale-updater";
pub const ALLOW_HEADERS: &'static str = "Access-Control-Allow-Headers";
pub const ALLOW_ORIGIN: &'static str = "Access-Control-Allow-Origin";
pub const ALLOW_ALL: &'static str = "*";
pub const CONTENT_TYPE: &'static str = "Content-Type";
pub const JSON_CONTENT_TYPE: &'static str = "application/json; charset=utf-8";
pub const HEALTH_OK: &'static str = "OK";
pub const PARSE_FAILURE_TEXT: &'static str = "Cannot parse request. Please pass valid JSON. Error=";

/// What the watchdog does with a request.
#[derive(Debug, Clone, Copy, PartialEq, Eq, Structural)]
pub enum Route {
    /// Any `OPTIONS` request: allow everything.
    Options,
    /// `GET` on the health path.
    Health,
    /// Another method on the health path.
    HealthNotAllowed,
    ScaleReader,
    ScaleUpdater,
    /// Every other request goes to the function.
    Function,
}

pub open spec fn route_of(method: Seq<char>, path: Seq<char>) -> Route {
    if method == "OPTIONS"@ {
        Route::Options
    } else if path == HEALTH_PATH@ {
        if method == "GET"@ {
            Route::Health
        } else {
            Route::HealthNotAllowed
        }
    } else if path == SCALE_READER_PATH@ {
        Route::ScaleReader
    } else if path == SCALE_UPDATER_PATH@ {
        Route::ScaleUpdater
    } else {
        Route::Function
    }
}

/// Picks the route for a request's method and path.
pub fn route(method: &str, path: &str) -> (r: Route)
    ensures
        r == route_of(method@, path@),
{
    if str_eq(method, "OPTIONS") {
        Route::Options
    } else if str_eq(path, HEALTH_PATH) {
        if str_eq(method, "GET") {
            Route::Health
        } else {
            Route::HealthNotAllowed
        }
    } else if str_eq(path, SCALE_READER_PATH) {
        Route::ScaleReader
    } else if str_eq(path, SCALE_UPDATER_PATH) {
        Route::ScaleUpdater
    } else {
        Route::Function
    }
}

/// A response: status, headers and body.
pub struct Reply {
    pub status: u16,
    pub headers: Vec<(String, String)>,
    pub body: String,
}

pub open spec fn header_views(h: Seq<(String, String)>) -> Seq<(Seq<char>, Seq<char>)> {
    h.map_values(|p: (String, String)| (p.0@, p.1@))
}

fn header(name: &str, value: &str) -> (r: (String, String))
    ensures
        r.0@ == name@,
        r.1@ == value@,
{
    (String::from_str(name), String::from_str(value))
}

/// The answer to `OPTIONS`: 200, allowing any header and any origin.
pub fn options_reply() -> (r: Reply)
    ensures
        r.status == 200,
        header_views(r.headers@) == seq![(ALLOW_HEADERS@, ALLOW_ALL@), (ALLOW_ORIGIN@, ALLOW_ALL@)],
        r.body@.len() == 0,
{
    let mut headers: Vec<(String, String)> = Vec::new();
    headers.push(header(ALLOW_HEADERS, ALLOW_ALL));
    headers.push(header(ALLOW_ORIGIN, ALLOW_ALL));
    assert(header_views(headers@) =~= seq![(ALLOW_HEADERS@, ALLOW_ALL@), (ALLOW_ORIGIN@, ALLOW_ALL@)]);
    Reply { status: 200, headers, body: String::new() }
}

/// The answer to a health probe: 200 `OK` when healthy, else 503.
pub fn health_reply(healthy: bool) -> (r: Reply)
    ensures
        healthy ==> r.status == 200 && r.body@ == HEALTH_OK@,
        !healthy ==> r.status == 503 && r.body@.len() == 0,
        r.headers@.len() == 0,
{
    if healthy {
        Reply { status: 200, headers: Vec::new(), body: String::from_str(HEALTH_OK) }
    } else {
        Reply { status: 503, headers: Vec::new(), body: String::new() }
    }
}

/// The answer to another method on the health path: 405.
pub fn method_not_allowed_reply() -> (r: Reply)
    ensures
        r.status == 405,
        r.headers@.len() == 0,
        r.body@.len() == 0,
{
    Reply { status: 405, headers: Vec::new(), body: String::new() }
}

/// The answer to the scale reader: 200 and the JSON status of the three counts.
pub fn scale_reader_reply(replicas: usize, available_replicas: usize, invocation_count: usize) -> (r:
    Reply)
    ensures
        r.status == 200,
        header_views(r.headers@) == seq![(CONTENT_TYPE@, JSON_CONTENT_TYPE@)],
        r.body@ == ReplicaFuncStatus::new_spec(
            replicas as u64,
            available_replicas as u64,
            invocation_count as u64,
        ).json(),
{
    let status = ReplicaFuncStatus::new(
        replicas as u64,
        available_replicas as u64,
        invocation_count as u64,
    );
    let mut headers: Vec<(String, String)> = Vec::new();
    headers.push(header(CONTENT_TYPE, JSON_CONTENT_TYPE));
    assert(header_views(headers@) =~= seq![(CONTENT_TYPE@, JSON_CONTENT_TYPE@)]);
    Reply { status: 200, headers, body: status.into_json() }
}

pub open spec fn scale_parse_text(e: ScaleParseError) -> Seq<char> {
    match e {
        ScaleParseError::Body(m) => m@,
        ScaleParseError::MissingKey => "Cannot find key \"replicas\""@,
        ScaleParseError::MissingColon => "Cannot find `:` after key \"replicas\""@,
        ScaleParseError::UnexpectedChar(c) => "Unexpected character ascii=`"@ + decimal_chars(
            c as nat,
        ) + "`"@,
        ScaleParseError::UnexpectedEof => "Unexpected EOF"@,
        ScaleParseError::TooLarge => "The number of replicas is too large"@,
    }
}

impl ScaleParseError {
    /// The text shown to the caller.
    pub fn message(&self) -> (r: String)
        ensures
            r@ == scale_parse_text(*self),
    {
        match self {
            ScaleParseError::Body(m) => m.clone(),
            ScaleParseError::MissingKey => String::from_str("Cannot find key \"replicas\""),
            ScaleParseError::MissingColon => String::from_str("Cannot find `:` after key \"replicas\""),
            ScaleParseError::UnexpectedChar(c) => {
                let mut s = String::from_str("Unexpected character ascii=`");
                let d = decimal_string(*c as u64);
                s.append(d.as_str());
                s.append("`");
                s
            },
            ScaleParseError::UnexpectedEof => String::from_str("Unexpected EOF"),
            ScaleParseError::TooLarge => String::from_str("The number of replicas is too large"),
        }
    }
}

/// Reads a scale update's body: the replica count, or the 400 answer.
pub fn scale_update_request(body: Result<String, String>) -> (r: Result<u64, Reply>)
    ensures
        match r {
            Ok(n) => exists|q: ScaleServiceRequest| ScaleServiceRequest::parses_to(body, q) && q._replicas == n,
            Err(reply) => reply.status == 400 && reply.headers@.len() == 0 && (exists|e: ScaleParseError|
                ScaleServiceRequest::fails_with(body, e) && reply.body@ == PARSE_FAILURE_TEXT@
                    + scale_parse_text(e)),
        },
{
    match ScaleServiceRequest::from_json(body) {
        Ok(q) => Ok(q._replicas),
        Err(e) => {
            let mut text = String::from_str(PARSE_FAILURE_TEXT);
            let m = e.message();
            text.append(m.as_str());
            Err(Reply { status: 400, headers: Vec::new(), body: text })
        },
    }
}

/// The answer to a scale update, once the runner has taken it: 200, or 500
/// with the runner's error.
pub fn scale_update_reply(result: Result<(), String>) -> (r: Reply)
    ensures
        result is Ok ==> r.status == 200 && r.body@.len() == 0,
        result matches Err(m) ==> r.status == 500 && r.body@ == m@,
        r.headers@.len() == 0,
{
    match result {
        Ok(()) => Reply { status: 200, headers: Vec::new(), body: String::new() },
        Err(m) => Reply { status: 500, headers: Vec::new(), body: m },
    }
}

/// The answer when the function failed: 500 with the error's text.
pub fn function_failure_reply(error: String) -> (r: Reply)
    ensures
        r.status == 500,
        r.body@ == error@,
        r.headers@.len() == 0,
{
    Reply { status: 500, headers: Vec::new(), body: error }
}

pub open spec fn method_label_of(method: Seq<char>) -> Seq<char> {
    if method == "GET"@ {
        "get"@
    } else if method == "POST"@ {
        "post"@
    } else if method == "PUT"@ {
        "put"@
    } else if method == "DELETE"@ {
        "delete"@
    } else if method == "PATCH"@ {
        "patch"@
    } else if method == "HEAD"@ {
        "head"@
    } else {
        "options"@
    }
}

/// The metrics label of a method: the known ones in lower case, any other as `options`.
pub fn method_label(method: &str) -> (r: &'static str)
    ensures
        r@ == method_label_of(method@),
{
    if str_eq(method, "GET") {
        "get"
    } else if str_eq(method, "POST") {
        "post"
    } else if str_eq(method, "PUT") {
        "put"
    } else if str_eq(method, "DELETE") {
        "delete"
    } else if str_eq(method, "PATCH") {
        "patch"
    } else if str_eq(method, "HEAD") {
        "head"
    } else {
        "options"
    }
}

/// The metrics label of an outcome: `200` on success, `500` on failure.
pub fn code_label(success: bool) -> (r: &'static str)
    ensures
        success ==> r@ == "200"@,
        !success ==> r@ == "500"@,
{
    if success {
        "200"
    } else {
        "500"
    }
}

} // verus!
