//! The per-connection dispatch runtime. It holds the parsed request and
//! the response in flight; each registration call tests the stored request
//! against a route pattern and, on a match, runs the handler on the
//! current response, so matches registered later see — and may override —
//! what earlier matches wrote.

use vstd::prelude::*;

use crate::method::Method;
use crate::request::Request;
use crate::response::Response;
use crate::route::{spec_matches, spec_params, spec_segments, Route, RouteError};

verus! {

/// The per-connection dispatch state: the parsed request, the response in
/// flight, and the match and logging flags.
pub struct Runtime {
    /// The request this connection carried.
    pub request: Request,
    /// The response assembled so far; until a handler runs it is the
    /// default not-found response.
    pub response: Response,
    /// Whether any registration has matched the request.
    pub identified: bool,
    /// Whether the caller asked for the request to be logged.
    pub log_enabled: bool,
    /// Whether the log hook has fired for this connection.
    pub logged: bool,
}

/// What one registration call does to the runtime: on an invalid pattern
/// the state is untouched and the call errs; on a miss the state is
/// untouched; on a match the handler's output on the populated request and
/// the response so far becomes the response in flight, the connection
/// counts as identified, and the log hook fires once when enabled.
pub open spec fn dispatch_outcome<F: Fn(Request, Response) -> Response>(
    prev: Runtime,
    cur: Runtime,
    path: Seq<char>,
    method: Method,
    handler: F,
    r: Result<bool, RouteError>,
) -> bool {
    &&& cur.request == prev.request
    &&& cur.log_enabled == prev.log_enabled
    &&& match spec_matches(spec_segments(path), prev.request.route@) {
        None => r == Err::<bool, RouteError>(RouteError::InvalidPattern) && cur == prev,
        Some(false) => r == Ok::<bool, RouteError>(false) && cur == prev,
        Some(true) => {
            if method == prev.request.method {
                &&& r == Ok::<bool, RouteError>(true)
                &&& cur.identified
                &&& cur.logged == (prev.logged || prev.log_enabled)
                &&& exists|populated: Request|
                    {
                        &&& #[trigger] call_ensures(
                            handler,
                            (populated, prev.response),
                            cur.response,
                        )
                        &&& populated.method == prev.request.method
                        &&& populated.route@ == prev.request.route@
                        &&& populated.headers@ == prev.request.headers@
                        &&& (populated.body is Some <==> prev.request.body is Some)
                        &&& populated.params@ == spec_params(
                            spec_segments(path),
                            prev.request.route@,
                        )
                    }
            } else {
                r == Ok::<bool, RouteError>(false) && cur == prev
            }
        },
    }
}

/// Two registrations that both match the stored request compose left to
/// right: the first handler turned the original response into the middle
/// one, and the second handler received exactly that middle response, so
/// whatever the second handler wrote stands in the final response.
pub proof fn lemma_sequential_composition<
    F: Fn(Request, Response) -> Response,
    G: Fn(Request, Response) -> Response,
>(
    rt0: Runtime,
    rt1: Runtime,
    rt2: Runtime,
    path1: Seq<char>,
    path2: Seq<char>,
    f: F,
    g: G,
)
    requires
        dispatch_outcome(rt0, rt1, path1, rt0.request.method, f, Ok(true)),
        dispatch_outcome(rt1, rt2, path2, rt1.request.method, g, Ok(true)),
    ensures
        rt2.identified,
        rt2.request == rt0.request,
        exists|req1: Request, req2: Request|
            {
                &&& #[trigger] call_ensures(f, (req1, rt0.response), rt1.response)
                &&& #[trigger] call_ensures(g, (req2, rt1.response), rt2.response)
                &&& req1.params@ == spec_params(spec_segments(path1), rt0.request.route@)
                &&& req2.params@ == spec_params(spec_segments(path2), rt0.request.route@)
            },
{
    let req1 = choose|populated: Request|
        {
            &&& call_ensures(f, (populated, rt0.response), rt1.response)
            &&& populated.method == rt0.request.method
            &&& populated.route@ == rt0.request.route@
            &&& populated.headers@ == rt0.request.headers@
            &&& (populated.body is Some <==> rt0.request.body is Some)
            &&& populated.params@ == spec_params(spec_segments(path1), rt0.request.route@)
        };
    let req2 = choose|populated: Request|
        {
            &&& call_ensures(g, (populated, rt1.response), rt2.response)
            &&& populated.method == rt1.request.method
            &&& populated.route@ == rt1.request.route@
            &&& populated.headers@ == rt1.request.headers@
            &&& (populated.body is Some <==> rt1.request.body is Some)
            &&& populated.params@ == spec_params(spec_segments(path2), rt1.request.route@)
        };
    assert(call_ensures(f, (req1, rt0.response), rt1.response) && call_ensures(
        g,
        (req2, rt1.response),
        rt2.response,
    ) && req1.params@ == spec_params(spec_segments(path1), rt0.request.route@) && req2.params@
        == spec_params(spec_segments(path2), rt0.request.route@));
}

impl Runtime {
    /// A fresh runtime around a parsed request, carrying the default
    /// not-found response until some handler matches.
    pub fn new(request: Request) -> (r: Runtime)
        ensures
            r.request == request,
            r.response.content@ == crate::response::spec_not_found_body(),
            r.response.status.code == 404,
            r.response.wf(),
            !r.identified,
            !r.log_enabled,
            !r.logged,
    {
        Runtime {
            request,
            response: Response::default(),
            identified: false,
            log_enabled: false,
            logged: false,
        }
    }

    /// Turns request logging on.
    pub fn log(&mut self)
        ensures
            *final(self) == (Runtime { log_enabled: true, ..*old(self) }),
    {
        self.log_enabled = true;
    }

    /// Registers a handler for a method and a path pattern, and dispatches
    /// at once: when the stored request matches, the handler receives a
    /// copy of the request with the pattern's parameters filled in,
    /// together with the response in flight, and its output replaces that
    /// response.
    pub fn endpoint<F: Fn(Request, Response) -> Response>(
        &mut self,
        path: &str,
        method: Method,
        handler: F,
    ) -> (r: Result<bool, RouteError>)
        requires
            forall|req: Request, res: Response| #[trigger] call_requires(handler, (req, res)),
        ensures
            dispatch_outcome(*old(self), *final(self), path@, method, handler, r),
    {
        let route = Route::from(path);
        match route.matches(&self.request.route) {
            Err(e) => Err(e),
            Ok(false) => Ok(false),
            Ok(true) => {
                if method == self.request.method {
                    self.identified = true;
                    if self.log_enabled && !self.logged {
                        self.logged = true;
                    }
                    let mut populated = self.request.duplicate();
                    populated.populate_params(&route);
                    let ghost witness = populated;
                    let mut taken = Response::new();
                    core::mem::swap(&mut self.response, &mut taken);
                    let out = handler(populated, taken);
                    self.response = out;
                    proof {
                        assert(call_ensures(
                            handler,
                            (witness, old(self).response),
                            self.response,
                        ));
                    }
                    Ok(true)
                } else {
                    Ok(false)
                }
            },
        }
    }

    /// Registers a handler for `GET` requests on the path pattern.
    pub fn get<F: Fn(Request, Response) -> Response>(&mut self, path: &str, handler: F) -> (r:
        Result<bool, RouteError>)
        requires
            forall|req: Request, res: Response| #[trigger] call_requires(handler, (req, res)),
        ensures
            dispatch_outcome(*old(self), *final(self), path@, Method::GET, handler, r),
    {
        self.endpoint(path, Method::GET, handler)
    }

    /// Registers a handler for `POST` requests on the path pattern.
    pub fn post<F: Fn(Request, Response) -> Response>(&mut self, path: &str, handler: F) -> (r:
        Result<bool, RouteError>)
        requires
            forall|req: Request, res: Response| #[trigger] call_requires(handler, (req, res)),
        ensures
            dispatch_outcome(*old(self), *final(self), path@, Method::POST, handler, r),
    {
        self.endpoint(path, Method::POST, handler)
    }

    /// Registers a handler for `PUT` requests on the path pattern.
    pub fn put<F: Fn(Request, Response) -> Response>(&mut self, path: &str, handler: F) -> (r:
        Result<bool, RouteError>)
        requires
            forall|req: Request, res: Response| #[trigger] call_requires(handler, (req, res)),
        ensures
            dispatch_outcome(*old(self), *final(self), path@, Method::PUT, handler, r),
    {
        self.endpoint(path, Method::PUT, handler)
    }

    /// Registers a handler for `DELETE` requests on the path pattern.
    pub fn delete<F: Fn(Request, Response) -> Response>(&mut self, path: &str, handler: F) -> (r:
        Result<bool, RouteError>)
        requires
            forall|req: Request, res: Response| #[trigger] call_requires(handler, (req, res)),
        ensures
            dispatch_outcome(*old(self), *final(self), path@, Method::DELETE, handler, r),
    {
        self.endpoint(path, Method::DELETE, handler)
    }

    /// Registers a handler for `TRACE` requests on the path pattern.
    pub fn trace<F: Fn(Request, Response) -> Response>(&mut self, path: &str, handler: F) -> (r:
        Result<bool, RouteError>)
        requires
            forall|req: Request, res: Response| #[trigger] call_requires(handler, (req, res)),
        ensures
            dispatch_outcome(*old(self), *final(self), path@, Method::TRACE, handler, r),
    {
        self.endpoint(path, Method::TRACE, handler)
    }

    /// Registers a handler for `PATCH` requests on the path pattern.
    pub fn patch<F: Fn(Request, Response) -> Response>(&mut self, path: &str, handler: F) -> (r:
        Result<bool, RouteError>)
        requires
            forall|req: Request, res: Response| #[trigger] call_requires(handler, (req, res)),
        ensures
            dispatch_outcome(*old(self), *final(self), path@, Method::PATCH, handler, r),
    {
        self.endpoint(path, Method::PATCH, handler)
    }

    /// Ends dispatch: yields the response to put on the wire, and whether
    /// the log hook still owes this connection its one entry — logging is
    /// on, no match fired it, and no handler was identified.
    pub fn finish(self) -> (r: (Response, bool))
        ensures
            r.0 == self.response,
            r.1 == (!self.identified && self.log_enabled && !self.logged),
    {
        let should_log = !self.identified && self.log_enabled && !self.logged;
        (self.response, should_log)
    }
}

} // verus!
