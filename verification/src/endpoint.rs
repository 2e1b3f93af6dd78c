//! An endpoint: the association of a method and a route pattern, tested
//! against incoming requests.

use vstd::prelude::*;

use crate::method::Method;
use crate::request::Request;
use crate::route::{spec_matches, Route, RouteError};

verus! {

/// A method/route pair that requests are dispatched against.
pub struct Endpoint {
    pub route: Route,
    pub method: Method,
}

impl Endpoint {
    /// Binds a route pattern to a method.
    pub fn new(route: Route, method: Method) -> (r: Endpoint)
        ensures
            r.route == route,
            r.method == method,
    {
        Endpoint { route, method }
    }

    /// Whether the endpoint matches the request: the method must agree and
    /// the route pattern must match the request's route. A route pattern
    /// with an invalid regular expression segment is an error, discovered
    /// only when the method agrees and every segment before it matched.
    pub fn matches(&self, request: &Request) -> (r: Result<bool, RouteError>)
        ensures
            self.method != request.method ==> r == Ok::<bool, RouteError>(false),
            self.method == request.method ==> match spec_matches(self.route@, request.route@) {
                Some(b) => r == Ok::<bool, RouteError>(b),
                None => r == Err::<bool, RouteError>(RouteError::InvalidPattern),
            },
    {
        if self.method != request.method {
            return Ok(false);
        }
        self.route.matches(&request.route)
    }
}

} // verus!
