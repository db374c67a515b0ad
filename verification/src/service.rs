//! The whole request-handling pipeline: dispatch, response construction,
//! serialization, and the fixed header set — everything but the socket.

use vstd::prelude::*;
use vstd::string::StringExecFns;

use crate::clock;
use crate::json::api_response_json;
use crate::json::encode_api_response;
use crate::json::encode_status_response;
use crate::json::status_response_json;
use crate::models::hello_at;
use crate::models::hello_message;
use crate::models::operational_message;
use crate::models::operational_status;
use crate::models::service_name;
use crate::models::service_version;
use crate::models::status;
use crate::models::success_status;
use crate::models::welcome_at;
use crate::models::welcome_message;
use crate::router::Dispatch;
use crate::router::dispatch;
use crate::router::known_path;
use crate::router::spec_dispatch;

verus! {

/// A complete HTTP response: status code, header list, body.
pub struct HttpResponse {
    pub status: u16,
    pub headers: Vec<(String, String)>,
    pub body: String,
}

/// The header list as a sequence of name/value character sequences.
pub open spec fn headers_view(hs: Seq<(String, String)>) -> Seq<(Seq<char>, Seq<char>)> {
    hs.map_values(|p: (String, String)| (p.0@, p.1@))
}

/// The headers every response carries: the content type, and the CORS
/// policy — any origin, content-type allowed, the four allowed methods.
pub open spec fn response_headers() -> Seq<(Seq<char>, Seq<char>)> {
    seq![
        ("content-type"@, "application/json"@),
        ("access-control-allow-origin"@, "*"@),
        ("access-control-allow-headers"@, "content-type"@),
        ("access-control-allow-methods"@, "GET, POST, PUT, DELETE"@),
    ]
}

/// The status code for a request line: 200 for the three routes, 405 for a
/// known path with a method other than GET, 404 otherwise.
pub open spec fn spec_status(method: Seq<char>, path: Seq<char>) -> int {
    match spec_dispatch(method, path) {
        Dispatch::Welcome => 200,
        Dispatch::Status => 200,
        Dispatch::Hello => 200,
        Dispatch::MethodNotAllowed => 405,
        Dispatch::NotFound => 404,
    }
}

/// The body for a request line, given the timestamp the envelope routes
/// would stamp it with. Unmatched requests get an empty body.
pub open spec fn spec_body(method: Seq<char>, path: Seq<char>, ts: Seq<char>) -> Seq<char> {
    match spec_dispatch(method, path) {
        Dispatch::Welcome => api_response_json(welcome_message(), success_status(), ts),
        Dispatch::Status => status_response_json(
            service_name(),
            service_version(),
            operational_status(),
            operational_message(),
        ),
        Dispatch::Hello => api_response_json(hello_message(), success_status(), ts),
        Dispatch::MethodNotAllowed => Seq::empty(),
        Dispatch::NotFound => Seq::empty(),
    }
}

/// Builds the header list every response carries.
pub fn response_header_list() -> (hs: Vec<(String, String)>)
    ensures
        headers_view(hs@) == response_headers(),
{
    let mut hs: Vec<(String, String)> = Vec::new();
    hs.push((String::from_str("content-type"), String::from_str("application/json")));
    hs.push((String::from_str("access-control-allow-origin"), String::from_str("*")));
    hs.push((String::from_str("access-control-allow-headers"), String::from_str("content-type")));
    hs.push(
        (String::from_str("access-control-allow-methods"), String::from_str(
            "GET, POST, PUT, DELETE",
        )),
    );
    proof {
        assert(headers_view(hs@) =~= response_headers());
    }
    hs
}

/// Answers one request whose envelope timestamp is supplied by the caller.
pub fn respond(method: &str, path: &str, timestamp: &str) -> (r: HttpResponse)
    ensures
        r.status as int == spec_status(method@, path@),
        headers_view(r.headers@) == response_headers(),
        r.body@ == spec_body(method@, path@, timestamp@),
{
    let d = dispatch(method, path);
    let (status_code, body): (u16, String) = match d {
        Dispatch::Welcome => (
            200,
            encode_api_response(&welcome_at(String::from_str(timestamp))),
        ),
        Dispatch::Status => (200, encode_status_response(&status())),
        Dispatch::Hello => (200, encode_api_response(&hello_at(String::from_str(timestamp)))),
        Dispatch::MethodNotAllowed => (405, String::new()),
        Dispatch::NotFound => (404, String::new()),
    };
    HttpResponse { status: status_code, headers: response_header_list(), body }
}

/// Answers one request, stamping the envelope routes with the current
/// instant. The timestamp is whatever the clock gave: non-empty, but
/// otherwise unknown, so the body is pinned down only up to it.
pub fn handle_request(method: &str, path: &str) -> (r: HttpResponse)
    ensures
        r.status as int == spec_status(method@, path@),
        headers_view(r.headers@) == response_headers(),
        exists|ts: Seq<char>| ts.len() > 0 && r.body@ == spec_body(method@, path@, ts),
{
    let ts = clock::now_rfc3339();
    let r = respond(method, path, ts.as_str());
    proof {
        assert(ts@.len() > 0 && r.body@ == spec_body(method@, path@, ts@));
    }
    r
}

/// Law: every response, whatever the route, carries the CORS allow-origin
/// header. Together with `respond`'s contract — the header list of every
/// response is exactly `response_headers()` — this puts the header on every
/// answer the service gives.
pub proof fn lemma_cors_always_present()
    ensures
        exists|i: int|
            0 <= i < response_headers().len() && response_headers()[i] == (
                "access-control-allow-origin"@,
                "*"@,
            ),
{
    assert(response_headers()[1] == ("access-control-allow-origin"@, "*"@));
}

/// Law: a request is answered 200 exactly when it is a GET of one of the
/// three routes; everything else gets 404 (unknown path) or 405 (known path,
/// other method) — never 200.
pub proof fn lemma_unmatched_never_ok(method: Seq<char>, path: Seq<char>)
    ensures
        spec_status(method, path) == 200 <==> (method == "GET"@ && known_path(path)),
        spec_status(method, path) == 200 || spec_status(method, path) == 404 || spec_status(
            method,
            path,
        ) == 405,
        !known_path(path) ==> spec_status(method, path) == 404,
        known_path(path) && method != "GET"@ ==> spec_status(method, path) == 405,
{
}

/// Law: repeated identical requests are answered identically but for the
/// timestamp: the status and headers are functions of method and path alone;
/// the status route's body and the error bodies are byte-identical; the two
/// envelope routes' bodies are the same fixed message and status around
/// whichever timestamp each call drew.
pub proof fn lemma_repeat_requests(
    method: Seq<char>,
    path: Seq<char>,
    ts1: Seq<char>,
    ts2: Seq<char>,
)
    ensures
        spec_dispatch(method, path) != Dispatch::Welcome && spec_dispatch(method, path)
            != Dispatch::Hello ==> spec_body(method, path, ts1) == spec_body(method, path, ts2),
        spec_dispatch(method, path) == Dispatch::Welcome ==> spec_body(method, path, ts1)
            == api_response_json(welcome_message(), success_status(), ts1) && spec_body(
            method,
            path,
            ts2,
        ) == api_response_json(welcome_message(), success_status(), ts2),
        spec_dispatch(method, path) == Dispatch::Hello ==> spec_body(method, path, ts1)
            == api_response_json(hello_message(), success_status(), ts1) && spec_body(
            method,
            path,
            ts2,
        ) == api_response_json(hello_message(), success_status(), ts2),
{
}

} // verus!
