//! Route dispatch: exact path-and-method matching over the three routes.

use vstd::prelude::*;

use crate::text::str_eq;

verus! {

/// The outcome of matching a request line against the route table.
#[derive(Clone, Copy, Debug, PartialEq, Eq, Structural)]
pub enum Dispatch {
    /// GET of the root path.
    Welcome,
    /// GET of the status path.
    Status,
    /// GET of the hello path.
    Hello,
    /// A known path asked for with a method other than GET.
    MethodNotAllowed,
    /// A path outside the route table.
    NotFound,
}

/// Whether a path is one of the three the service serves.
pub open spec fn known_path(path: Seq<char>) -> bool {
    path == "/"@ || path == "/api/status"@ || path == "/api/hello"@
}

/// The route table: exact match on path, then on method.
pub open spec fn spec_dispatch(method: Seq<char>, path: Seq<char>) -> Dispatch {
    if !known_path(path) {
        Dispatch::NotFound
    } else if method != "GET"@ {
        Dispatch::MethodNotAllowed
    } else if path == "/"@ {
        Dispatch::Welcome
    } else if path == "/api/status"@ {
        Dispatch::Status
    } else {
        Dispatch::Hello
    }
}

/// Matches a request's method and path against the route table.
pub fn dispatch(method: &str, path: &str) -> (d: Dispatch)
    ensures
        d == spec_dispatch(method@, path@),
{
    let root = str_eq(path, "/");
    let status_path = str_eq(path, "/api/status");
    let hello_path = str_eq(path, "/api/hello");
    if !root && !status_path && !hello_path {
        Dispatch::NotFound
    } else if !str_eq(method, "GET") {
        Dispatch::MethodNotAllowed
    } else if root {
        Dispatch::Welcome
    } else if status_path {
        Dispatch::Status
    } else {
        Dispatch::Hello
    }
}

} // verus!
