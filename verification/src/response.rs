//! The outgoing response: a builder for status, headers and body content,
//! and its exact HTTP/1.1 wire rendering.

use vstd::prelude::*;
use vstd::string::{StrSliceExecFns, StringExecFns};

use crate::cookie::{spec_cookie_header, Cookie};
use crate::status::{spec_from_code, Status, StatusCode, StatusError};
use crate::strmap::{entry_views, StringMap};
use crate::strutil::spec_dec;

verus! {

/// The canned body served when nothing was found.
pub open spec fn spec_not_found_body() -> Seq<char> {
    "<h1>404 Not Found</h1>"@
}

/// The canned body served when nothing was found.
pub fn not_found_body() -> (r: String)
    ensures
        r@ == spec_not_found_body(),
{
    String::from_str("<h1>404 Not Found</h1>")
}

/// The length in bytes of a text, as the machine counts it.
pub open spec fn spec_byte_len(s: Seq<char>) -> int {
    (vstd::utf8::encode_utf8(s).len() as usize) as int
}

/// The status line of a response: protocol, numeric code and reason phrase.
pub open spec fn spec_status_line(s: Status) -> Seq<char> {
    "HTTP/1.1 "@ + spec_dec(s.code as int) + " "@ + s.reason@
}

/// The rendering of the header fields, each as a line of its own.
pub open spec fn spec_header_lines(hs: Seq<(Seq<char>, Seq<char>)>) -> Seq<char>
    decreases hs.len(),
{
    if hs.len() == 0 {
        Seq::<char>::empty()
    } else {
        "\n"@ + hs[0].0 + ": "@ + hs[0].1 + spec_header_lines(hs.drop_first())
    }
}

/// An outgoing response under construction.
#[derive(PartialEq, Eq, Debug)]
pub struct Response {
    pub content: String,
    pub status: Status,
    pub headers: StringMap,
}

/// The exact wire text of a response: the status line, the content length
/// in bytes, the header lines, a blank line, and the content.
pub open spec fn spec_wire(r: Response) -> Seq<char> {
    spec_status_line(r.status) + "\r\nContent-Length: "@ + spec_dec(spec_byte_len(r.content@))
        + spec_header_lines(entry_views(r.headers.entries@)) + "\r\n\r\n"@ + r.content@
}

impl Response {
    /// The status carries its table phrase and no header key repeats.
    pub open spec fn wf(&self) -> bool {
        self.status.wf() && self.headers.wf()
    }

    /// An empty `200 OK` response.
    pub fn new() -> (r: Response)
        ensures
            r.content@ == Seq::<char>::empty(),
            r.status.code == 200,
            r.status.reason@ == "OK"@,
            r.headers.entries@.len() == 0,
            r.wf(),
    {
        Response {
            content: String::new(),
            status: Status::from(StatusCode::OK),
            headers: StringMap::new(),
        }
    }

    /// Sets the status from a code of the table.
    pub fn status(self, status: StatusCode) -> (r: Response)
        ensures
            r.content == self.content,
            r.headers == self.headers,
            r.status.code as int == status.spec_code(),
            r.status.reason@ == status.spec_phrase(),
            r.status.wf(),
    {
        Response { status: Status::from(status), ..self }
    }

    /// Sets the status from a numeric code; a number outside the table is
    /// an error, and the response is then left as it was.
    pub fn status_num(self, status: usize) -> (r: Result<Response, StatusError>)
        ensures
            match spec_from_code(status as int) {
                Some(sc) => r matches Ok(res) && res.content == self.content && res.headers
                    == self.headers && res.status.code == status && res.status.reason@
                    == sc.spec_phrase() && res.status.wf(),
                None => r == Err::<Response, StatusError>(StatusError::InvalidStatusCode),
            },
    {
        if status > 65535 {
            return Err(StatusError::InvalidStatusCode);
        }
        match Status::from_code(status as u16) {
            Ok(s) => Ok(Response { status: s, ..self }),
            Err(e) => Err(e),
        }
    }

    /// Sets the body content.
    pub fn content(self, content: String) -> (r: Response)
        ensures
            r.status == self.status,
            r.headers == self.headers,
            r.content == content,
    {
        Response { content, ..self }
    }

    /// Fills the response from the outcome of reading a file: the file's
    /// text with `200 OK` when one was read, else the canned not-found body
    /// with status 404.
    pub fn resolve_file(self, file: Option<String>) -> (r: Response)
        ensures
            r.headers == self.headers,
            match file {
                Some(text) => r.content == text && r.status.code == 200 && r.status.reason@
                    == "OK"@,
                None => r.content@ == spec_not_found_body() && r.status.code == 404
                    && r.status.reason@ == "Not Found"@,
            },
            r.status.wf(),
    {
        match file {
            Some(text) => Response {
                content: text,
                status: Status::from(StatusCode::OK),
                ..self
            },
            None => Response {
                content: not_found_body(),
                status: Status::from(StatusCode::NotFound),
                ..self
            },
        }
    }

    /// Attaches the cookie as the `Set-Cookie` header.
    pub fn set_cookie(self, cookie: Cookie) -> (r: Response)
        requires
            self.headers.wf(),
            cookie.wf(),
        ensures
            r.status == self.status,
            r.content == self.content,
            r.headers@ == self.headers@.insert("Set-Cookie"@, spec_cookie_header(cookie)),
            r.headers.wf(),
    {
        let mut headers = self.headers;
        let value = cookie.as_header();
        headers.insert(String::from_str("Set-Cookie"), value);
        Response { headers, ..self }
    }

    /// Attaches a `Set-Cookie` header that expires the named cookie at the
    /// start of the epoch.
    pub fn delete_cookie(self, name: &str) -> (r: Response)
        requires
            self.headers.wf(),
        ensures
            r.status == self.status,
            r.content == self.content,
            r.headers@ == self.headers@.insert(
                "Set-Cookie"@,
                name@ + "=; Expires=Thu, 01 Jan 1970 00:00:00 GMT"@,
            ),
            r.headers.wf(),
    {
        let mut value = name.to_owned();
        value.append("=; Expires=Thu, 01 Jan 1970 00:00:00 GMT");
        let mut headers = self.headers;
        headers.insert(String::from_str("Set-Cookie"), value);
        Response { headers, ..self }
    }

    /// Renders the response in its exact wire format.
    pub fn format_for_response(&self) -> (r: String)
        ensures
            r@ == spec_wire(*self),
    {
        let ghost me = *self;
        let ghost part1 = spec_status_line(me.status);
        let ghost part2 = part1 + "\r\nContent-Length: "@ + spec_dec(spec_byte_len(me.content@));
        let ghost views = entry_views(me.headers.entries@);
        let mut out = String::from_str("HTTP/1.1 ");
        crate::strutil::push_decimal(self.status.code as u64, &mut out);
        out.append(" ");
        out.append(self.status.reason.as_str());
        proof {
            assert(out@ =~= part1);
        }
        out.append("\r\nContent-Length: ");
        crate::strutil::push_decimal(self.content.as_str().len() as u64, &mut out);
        proof {
            assert(out@ =~= part2);
        }
        let n = self.headers.entries.len();
        let mut i: usize = 0;
        proof {
            assert(views.skip(0) =~= views);
        }
        while i < n
            invariant
                n == self.headers.entries@.len(),
                0 <= i <= n,
                views == entry_views(self.headers.entries@),
                part2 + spec_header_lines(views) =~= out@ + spec_header_lines(
                    views.skip(i as int),
                ),
            decreases n - i,
        {
            let ghost before = out@;
            out.append("\n");
            out.append(self.headers.entries[i].0.as_str());
            out.append(": ");
            out.append(self.headers.entries[i].1.as_str());
            proof {
                assert(views.skip(i as int)[0] == views[i as int]);
                assert(views.skip(i as int).drop_first() =~= views.skip(i + 1));
                assert(spec_header_lines(views.skip(i as int)) == "\n"@ + views[i as int].0
                    + ": "@ + views[i as int].1 + spec_header_lines(views.skip(i + 1)));
                assert(out@ == before + "\n"@ + views[i as int].0 + ": "@ + views[i as int].1);
                assert(part2 + spec_header_lines(views) =~= out@ + spec_header_lines(
                    views.skip(i + 1),
                ));
            }
            i = i + 1;
        }
        proof {
            assert(views.skip(n as int) =~= Seq::<(Seq<char>, Seq<char>)>::empty());
            assert(out@ =~= part2 + spec_header_lines(views));
        }
        out.append("\r\n\r\n");
        out.append(self.content.as_str());
        proof {
            assert(out@ =~= spec_wire(me));
        }
        out
    }
}

impl Default for Response {
    /// The response sent when no handler matched: the canned not-found
    /// body under status 404.
    fn default() -> (r: Response)
        ensures
            r.content@ == spec_not_found_body(),
            r.status.code == 404,
            r.status.reason@ == "Not Found"@,
            r.headers.entries@.len() == 0,
            r.wf(),
    {
        Response::new().resolve_file(None)
    }
}

} // verus!
