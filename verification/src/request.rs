//! The incoming request: a strict single-pass parser for one buffered
//! HTTP/1.1 request, yielding the method, the route, the cleaned header
//! fields, and a decoded JSON body when the headers announce one.

use vstd::prelude::*;
use vstd::string::{StrSliceExecFns, StringExecFns};

use crate::method::{spec_method_of_token, Method};
use crate::route::{spec_params, spec_segments, Route};
use crate::strmap::StringMap;
use crate::strutil::{
    char_white, find_char, join_from, lower_of, lower_str, seq_views, spec_concat, spec_find,
    spec_lines, spec_split, split_char, split_lines, str_eq_str, strip_white,
};

verus! {

/// A failure while parsing a raw request.
#[derive(Clone, Copy, PartialEq, Eq, Structural, Debug)]
pub enum ParseError {
    /// The input holds no line at all.
    EmptyRequest,
    /// The start-line lacks a method or a path token.
    InvalidStartLine,
    /// The method token names no known method.
    InvalidMethod,
    /// A header line holds no `:` separator.
    InvalidHeader,
    /// The announced JSON body has no closing brace or does not decode.
    InvalidBody,
}

#[verifier::external_type_specification]
#[verifier::external_body]
pub struct ExValue(serde_json::Value);

/// Whether a text decodes as a JSON value.
pub uninterp spec fn json_parses(s: Seq<char>) -> bool;

/// Relies on serde_json::from_str::<Value>: whether the text decodes
/// depends on the text alone.
#[verifier::external_body]
fn json_from_str(s: &str) -> (r: Option<serde_json::Value>)
    ensures
        r is Some <==> json_parses(s@),
{
    serde_json::from_str::<serde_json::Value>(s).ok()
}

/// Relies on serde_json::Value::clone: an equal value comes back.
#[verifier::external_body]
fn clone_json(v: &serde_json::Value) -> (r: serde_json::Value)
    ensures
        r == *v,
{
    v.clone()
}

/// A header value as stored: lower-cased, then all whitespace removed.
pub open spec fn spec_clean_value(v: Seq<char>) -> Seq<char> {
    lower_of(v).filter(|c: char| !char_white(c))
}

/// Reads header lines from `i` on, accumulating into `acc`, until an empty
/// line or the end of the input; `None` stands for a line without `:`. On
/// success the headers come with the index of the first body line.
pub open spec fn spec_headers(
    lines: Seq<Seq<char>>,
    i: int,
    acc: Map<Seq<char>, Seq<char>>,
) -> Option<(Map<Seq<char>, Seq<char>>, int)>
    decreases lines.len() - i,
    when 0 <= i <= lines.len()
{
    if i >= lines.len() {
        Some((acc, i))
    } else if lines[i].len() == 0 {
        Some((acc, i + 1))
    } else {
        match spec_find(lines[i], ':') {
            None => None,
            Some(j) => spec_headers(
                lines,
                i + 1,
                acc.insert(lower_of(lines[i].take(j)), spec_clean_value(lines[i].skip(j + 1))),
            ),
        }
    }
}

/// The abstract content of a well-parsed request.
pub struct ReqModel {
    pub method: Method,
    pub segments: Seq<Seq<char>>,
    pub headers: Map<Seq<char>, Seq<char>>,
    pub has_body: bool,
}

/// The method and route of a request whose lines and headers were read.
pub open spec fn spec_finish(
    tokens: Seq<Seq<char>>,
    headers: Map<Seq<char>, Seq<char>>,
    has_body: bool,
) -> Result<ReqModel, ParseError> {
    match spec_method_of_token(tokens[0]) {
        None => Err(ParseError::InvalidMethod),
        Some(m) => Ok(
            ReqModel { method: m, segments: spec_segments(tokens[1]), headers, has_body },
        ),
    }
}

/// What parsing a raw request text yields: the parsed request, or the
/// error the text earns, each error on exactly the inputs it names.
pub open spec fn spec_parse(input: Seq<char>) -> Result<ReqModel, ParseError> {
    let lines = spec_lines(input);
    if lines.len() == 0 {
        Err(ParseError::EmptyRequest)
    } else {
        let tokens = spec_split(lines[0], ' ');
        if tokens.len() < 2 {
            Err(ParseError::InvalidStartLine)
        } else {
            match spec_headers(lines, 1, Map::empty()) {
                None => Err(ParseError::InvalidHeader),
                Some((headers, next)) => {
                    if headers.contains_key("content-type"@) && headers["content-type"@]
                        == "application/json"@ {
                        let joined = spec_concat(lines.skip(next));
                        match spec_find(joined, '}') {
                            None => Err(ParseError::InvalidBody),
                            Some(e) => {
                                if json_parses(joined.take(e + 1)) {
                                    spec_finish(tokens, headers, true)
                                } else {
                                    Err(ParseError::InvalidBody)
                                }
                            },
                        }
                    } else {
                        spec_finish(tokens, headers, false)
                    }
                },
            }
        }
    }
}

/// A parsed request.
pub struct Request {
    pub method: Method,
    pub route: Route,
    /// Empty right after parsing; filled by matching against a registered
    /// route's named parameters.
    pub params: StringMap,
    pub headers: StringMap,
    /// The decoded JSON body, or `None` when the headers announce none.
    pub body: Option<serde_json::Value>,
}

impl Request {
    /// The header keys and parameter names are each held once.
    pub open spec fn wf(&self) -> bool {
        self.params.wf() && self.headers.wf()
    }

    /// Parses one buffered request text. Errors come exactly as the text
    /// earns them: no line at all, a start-line without two tokens, a
    /// header line without `:`, an announced JSON body without a closing
    /// brace or one that does not decode, and an unknown method token, in
    /// that order of discovery.
    #[verifier::loop_isolation(false)]
    pub fn parse(input: &str) -> (r: Result<Request, ParseError>)
        ensures
            match spec_parse(input@) {
                Ok(m) => r matches Ok(req) && req.method == m.method && req.route@ == m.segments
                    && req.params@ == Map::<Seq<char>, Seq<char>>::empty() && req.headers@
                    == m.headers && (req.body is Some <==> m.has_body) && req.wf(),
                Err(e) => r == Err::<Request, ParseError>(e),
            },
    {
        let lines = split_lines(input);
        let ghost line_views = spec_lines(input@);
        let n = lines.len();
        if n == 0 {
            return Err(ParseError::EmptyRequest);
        }
        let tokens = split_char(lines[0].as_str(), ' ');
        let ghost spec_tokens = spec_split(line_views[0], ' ');
        proof {
            assert(line_views[0] == lines@[0]@);
            assert(seq_views(tokens@) == spec_tokens);
            assert(tokens@.len() == spec_tokens.len());
        }
        if tokens.len() < 2 {
            return Err(ParseError::InvalidStartLine);
        }
        let mut headers = StringMap::new();
        let mut i: usize = 1;
        let mut next: usize = n;
        let mut done = false;
        while i < n && !done
            invariant
                n == lines@.len(),
                line_views == spec_lines(input@),
                seq_views(lines@) == line_views,
                1 <= i <= n,
                headers.wf(),
                !done ==> next == n,
                !done ==> spec_headers(line_views, 1, Map::empty()) == spec_headers(
                    line_views,
                    i as int,
                    headers@,
                ),
                done ==> 1 <= next <= n && spec_headers(line_views, 1, Map::empty()) == Some(
                    (headers@, next as int),
                ),
            decreases n - i, 1int - (if done { 1int } else { 0int }),
        {
            let line = &lines[i];
            let line_len = line.as_str().unicode_len();
            proof {
                assert(line_views[i as int] == lines@[i as int]@);
            }
            if line_len == 0 {
                proof {
                    assert(spec_headers(line_views, i as int, headers@) == Some(
                        (headers@, i + 1),
                    ));
                }
                next = i + 1;
                done = true;
            } else {
                match find_char(line.as_str(), ':') {
                    None => {
                        proof {
                            assert(spec_headers(line_views, i as int, headers@) is None);
                        }
                        return Err(ParseError::InvalidHeader);
                    },
                    Some(j) => {
                        proof {
                            crate::strutil::lemma_find_is_first(line@, ':');
                        }
                        let raw_key = line.as_str().substring_char(0, j);
                        let key = lower_str(raw_key);
                        let raw_value = line.as_str().substring_char(j + 1, line_len);
                        let lowered = lower_str(raw_value);
                        let value = strip_white(lowered.as_str());
                        proof {
                            assert(raw_key@ =~= line@.take(j as int));
                            assert(raw_value@ =~= line@.skip(j + 1));
                            assert(key@ == lower_of(line@.take(j as int)));
                            assert(value@ == spec_clean_value(line@.skip(j + 1)));
                            assert(spec_headers(line_views, i as int, headers@) == spec_headers(
                                line_views,
                                i + 1,
                                headers@.insert(
                                    lower_of(line@.take(j as int)),
                                    spec_clean_value(line@.skip(j + 1)),
                                ),
                            ));
                        }
                        headers.insert(key, value);
                        i = i + 1;
                    },
                }
            }
        }
        proof {
            if !done {
                assert(spec_headers(line_views, n as int, headers@) == Some(
                    (headers@, n as int),
                ));
            }
            assert(spec_headers(line_views, 1, Map::empty()) == Some((headers@, next as int)));
        }
        let is_json = match headers.get("content-type") {
            Some(v) => str_eq_str(v.as_str(), "application/json"),
            None => false,
        };
        let body: Option<serde_json::Value> = if is_json {
            let joined = join_from(&lines, next);
            let joined_len = joined.as_str().unicode_len();
            match find_char(joined.as_str(), '}') {
                None => {
                    return Err(ParseError::InvalidBody);
                },
                Some(e) => {
                    proof {
                        crate::strutil::lemma_find_is_first(joined@, '}');
                        assert(e < joined_len);
                    }
                    let prefix = joined.as_str().substring_char(0, e + 1);
                    proof {
                        assert(prefix@ =~= joined@.take(e + 1));
                    }
                    match json_from_str(prefix) {
                        Some(v) => Some(v),
                        None => {
                            return Err(ParseError::InvalidBody);
                        },
                    }
                },
            }
        } else {
            None
        };
        match Method::from_token(tokens[0].as_str()) {
            None => Err(ParseError::InvalidMethod),
            Some(m) => {
                let route = Route::from(tokens[1].as_str());
                Ok(Request { method: m, route, params: StringMap::new(), headers, body })
            },
        }
    }

    /// Fills the parameter bindings by zipping the registered route's named
    /// segments against this request's own path segments.
    pub fn populate_params(&mut self, route: &Route)
        ensures
            final(self).method == old(self).method,
            final(self).route == old(self).route,
            final(self).headers == old(self).headers,
            final(self).body == old(self).body,
            final(self).params@ == spec_params(route@, old(self).route@),
            final(self).params.wf(),
    {
        self.params = route.params(self);
    }

    /// A one-line account of the request: its method and its path.
    pub fn describe(&self) -> (r: String)
        ensures
            r@ == self.method.spec_token() + " to "@ + crate::route::spec_path_text(self.route@),
    {
        let mut out = self.method.token();
        out.append(" to ");
        let path = self.route.path_string();
        out.append(path.as_str());
        out
    }

    /// A copy of the request, field for field.
    pub fn duplicate(&self) -> (r: Request)
        ensures
            r.method == self.method,
            r.route@ == self.route@,
            r.params@ == self.params@,
            r.headers@ == self.headers@,
            r.body == self.body,
            self.wf() ==> r.wf(),
            self.params.wf() ==> r.params.wf(),
            self.headers.wf() ==> r.headers.wf(),
    {
        Request {
            method: self.method,
            route: self.route.duplicate(),
            params: self.params.duplicate(),
            headers: self.headers.duplicate(),
            body: match &self.body {
                Some(v) => Some(clone_json(v)),
                None => None,
            },
        }
    }
}

} // verus!
