//! Which answer the metrics endpoint gives to a request.
use vstd::prelude::*;
use vstd::string::StringExecFns;
use crate::constants::METRICS_PATH;

verus! {

/// The answer to one inbound request.
#[derive(Clone, Copy, Debug, PartialEq, Eq, Structural)]
pub enum Route {
    /// Any method but GET.
    MethodNotAllowed,
    /// The informational page at `/`.
    Root,
    /// A scrape at the metrics path.
    Metrics,
    /// Any other path.
    NotFound,
}

pub open spec fn route_of(is_get: bool, path: Seq<char>) -> Route {
    if !is_get {
        Route::MethodNotAllowed
    } else if path == "/"@ {
        Route::Root
    } else if path == METRICS_PATH@ {
        Route::Metrics
    } else {
        Route::NotFound
    }
}

/// Chooses the answer from the request's method and path.
pub fn route(is_get: bool, path: &str) -> (r: Route)
    ensures
        r == route_of(is_get, path@),
{
    if !is_get {
        return Route::MethodNotAllowed;
    }
    let p = String::from_str(path);
    if p == String::from_str("/") {
        Route::Root
    } else if p == String::from_str(METRICS_PATH) {
        Route::Metrics
    } else {
        Route::NotFound
    }
}

/// The body of a scrape's answer: the exposition text, or a single line feed
/// when the text is empty, so that the answer is never empty.
pub fn metrics_body(text: String) -> (r: String)
    ensures
        r@ == (if text@.len() == 0 { "\n"@ } else { text@ }),
{
    if text.as_str().is_empty() {
        String::from_str("\n")
    } else {
        text
    }
}

} // verus!
