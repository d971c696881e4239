//! Which front door a request goes to.

use vstd::prelude::*;
use crate::text::str_eq;

verus! {

/// Where a request goes.
#[derive(Clone, Copy, Debug, PartialEq, Eq, Structural)]
pub enum Route {
    /// The liveness probe.
    Health,
    /// The metrics page.
    Metrics,
    /// The REST front door.
    RestCall,
    /// The GraphQL front door.
    GraphQl,
    /// Nowhere.
    NotFound,
}

/// Where a request with the given method and path goes.
pub open spec fn route_for(method: Seq<char>, path: Seq<char>) -> Route {
    if method == "GET"@ && path == "/healthz"@ {
        Route::Health
    } else if method == "GET"@ && path == "/metrics"@ {
        Route::Metrics
    } else if method == "POST"@ && (path == "/v1/ai:call"@ || path == "/api/call"@) {
        Route::RestCall
    } else if (method == "GET"@ || method == "POST"@) && path == "/graphql"@ {
        Route::GraphQl
    } else {
        Route::NotFound
    }
}

/// Finds where a request with the given method and path goes.
pub fn route_of(method: &str, path: &str) -> (r: Route)
    ensures
        r == route_for(method@, path@),
{
    let get = str_eq(method, "GET");
    let post = str_eq(method, "POST");
    if get && str_eq(path, "/healthz") {
        Route::Health
    } else if get && str_eq(path, "/metrics") {
        Route::Metrics
    } else if post && (str_eq(path, "/v1/ai:call") || str_eq(path, "/api/call")) {
        Route::RestCall
    } else if (get || post) && str_eq(path, "/graphql") {
        Route::GraphQl
    } else {
        Route::NotFound
    }
}

} // verus!
