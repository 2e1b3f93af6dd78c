//! The HTTP request methods the toolkit understands.

use vstd::prelude::*;
use vstd::string::StringExecFns;

use crate::strutil::str_eq_str;

verus! {

/// An HTTP request method.
#[derive(Clone, Copy, PartialEq, Eq, Structural, Debug)]
pub enum Method {
    /// The GET method requests a representation of the specified resource.
    /// Requests using GET should only retrieve data.
    GET,
    /// The POST method submits an entity to the specified resource, often
    /// causing a change in state or side effects on the server.
    POST,
    /// The PUT method replaces all current representations of the target
    /// resource with the request payload.
    PUT,
    /// The DELETE method deletes the specified resource.
    DELETE,
    /// The TRACE method performs a message loop-back test along the path to
    /// the target resource.
    TRACE,
    /// The PATCH method applies partial modifications to a resource.
    PATCH,
}

/// The method a start-line token denotes, if any.
pub open spec fn spec_method_of_token(s: Seq<char>) -> Option<Method> {
    if s == "GET"@ {
        Some(Method::GET)
    } else if s == "POST"@ {
        Some(Method::POST)
    } else if s == "PUT"@ {
        Some(Method::PUT)
    } else if s == "DELETE"@ {
        Some(Method::DELETE)
    } else if s == "TRACE"@ {
        Some(Method::TRACE)
    } else if s == "PATCH"@ {
        Some(Method::PATCH)
    } else {
        None
    }
}

impl Method {
    /// Parses a start-line method token; any unrecognized token is rejected.
    pub fn from_token(s: &str) -> (r: Option<Method>)
        ensures
            r == spec_method_of_token(s@),
    {
        if str_eq_str(s, "GET") {
            Some(Method::GET)
        } else if str_eq_str(s, "POST") {
            Some(Method::POST)
        } else if str_eq_str(s, "PUT") {
            Some(Method::PUT)
        } else if str_eq_str(s, "DELETE") {
            Some(Method::DELETE)
        } else if str_eq_str(s, "TRACE") {
            Some(Method::TRACE)
        } else if str_eq_str(s, "PATCH") {
            Some(Method::PATCH)
        } else {
            None
        }
    }

    /// The token that names this method on the wire.
    pub open spec fn spec_token(self) -> Seq<char> {
        match self {
            Method::GET => "GET"@,
            Method::POST => "POST"@,
            Method::PUT => "PUT"@,
            Method::DELETE => "DELETE"@,
            Method::TRACE => "TRACE"@,
            Method::PATCH => "PATCH"@,
        }
    }

    /// Renders the method as its wire token.
    pub fn token(&self) -> (r: String)
        ensures
            r@ == self.spec_token(),
    {
        match self {
            Method::GET => String::from_str("GET"),
            Method::POST => String::from_str("POST"),
            Method::PUT => String::from_str("PUT"),
            Method::DELETE => String::from_str("DELETE"),
            Method::TRACE => String::from_str("TRACE"),
            Method::PATCH => String::from_str("PATCH"),
        }
    }
}

} // verus!
