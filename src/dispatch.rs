//! Which operation a request path names.
use vstd::prelude::*;

verus! {

/// The operations a request can ask for.
#[derive(Clone, Copy, Debug, PartialEq, Eq, Structural)]
pub enum Route {
    /// Read a pod's history.
    PodHistory,
    /// Read a producer identifier's history.
    ProducerHistory,
    /// Bind a pod to an identifier.
    Acquire,
    /// Drop a pod's binding.
    Release,
    /// Any other path: answered with a plain success status.
    Other,
}

/// The operation that the path `path` names.
pub open spec fn route_of(path: Seq<char>) -> Route {
    if path == "/history/pod"@ {
        Route::PodHistory
    } else if path == "/history/producer"@ {
        Route::ProducerHistory
    } else if path == "/acquire"@ {
        Route::Acquire
    } else if path == "/release"@ {
        Route::Release
    } else {
        Route::Other
    }
}

/// The operation that the path `path` names.
pub fn route(path: &str) -> (r: Route)
    ensures
        r == route_of(path@),
{
    let p = String::from_str(path);
    if p == String::from_str("/history/pod") {
        Route::PodHistory
    } else if p == String::from_str("/history/producer") {
        Route::ProducerHistory
    } else if p == String::from_str("/acquire") {
        Route::Acquire
    } else if p == String::from_str("/release") {
        Route::Release
    } else {
        Route::Other
    }
}

} // verus!
