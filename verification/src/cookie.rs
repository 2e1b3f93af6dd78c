//! Cookies for the `Set-Cookie` response header: a name/value pair with
//! optional attributes, rendered exactly as the header line carries them.

use vstd::prelude::*;
use vstd::string::StringExecFns;

use crate::strutil::{spec_dec_signed, to_decimal_signed};

verus! {

/// The largest count of seconds since the Unix epoch still inside year
/// 9998, the last time the date formatter accepts.
pub const EXPIRES_LIMIT: u64 = 253402300800;

/// The `SameSite` cookie attribute.
#[derive(Clone, Copy, PartialEq, Eq, Structural, Debug)]
pub enum SameSite {
    /// The browser sends the cookie only for requests originating from the
    /// same site that set it.
    Strict,
    /// The cookie is withheld from cross-site subrequests but sent when the
    /// user navigates to the origin site from elsewhere. The default.
    Lax,
    /// The browser sends the cookie with both cross-site and same-site
    /// requests; rendered as `None`, which asks for `Secure` as well.
    CrossSite,
}

impl SameSite {
    /// The word the attribute renders as.
    pub open spec fn spec_word(self) -> Seq<char> {
        match self {
            SameSite::Strict => "Strict"@,
            SameSite::Lax => "Lax"@,
            SameSite::CrossSite => "None"@,
        }
    }

    /// Renders the attribute's word.
    pub fn to_string(&self) -> (r: String)
        ensures
            r@ == self.spec_word(),
    {
        match self {
            SameSite::Strict => String::from_str("Strict"),
            SameSite::Lax => String::from_str("Lax"),
            SameSite::CrossSite => String::from_str("None"),
        }
    }
}

/// The IMF-fixdate rendering of a point in time, given as seconds since
/// the Unix epoch.
pub uninterp spec fn http_date_of(secs: u64) -> Seq<char>;

/// Relies on httpdate::fmt_http_date: the rendering depends on the time
/// value alone. Times from year 9999 on make that function panic and are
/// refused here.
#[verifier::external_body]
fn http_date_string(secs: u64) -> (r: String)
    requires
        secs < EXPIRES_LIMIT,
    ensures
        r@ == http_date_of(secs),
{
    httpdate::fmt_http_date(std::time::SystemTime::UNIX_EPOCH + core::time::Duration::from_secs(secs))
}

/// A cookie to be set by a response.
#[derive(PartialEq, Eq, Debug)]
pub struct Cookie {
    pub name: String,
    pub value: String,
    /// Seconds since the Unix epoch, when an expiry date is wanted.
    pub expires: Option<u64>,
    pub max_age: Option<i32>,
    pub domain: Option<String>,
    pub path: Option<String>,
    pub secure: bool,
    pub http_only: bool,
    pub same_site: SameSite,
}

/// The exact text of the cookie's `Set-Cookie` header value.
pub open spec fn spec_cookie_header(c: Cookie) -> Seq<char> {
    c.name@ + "="@ + c.value@ + (match c.expires {
        Some(t) => "; Expires="@ + http_date_of(t),
        None => Seq::<char>::empty(),
    }) + (match c.max_age {
        Some(m) => "; Max-Age="@ + spec_dec_signed(m as int),
        None => Seq::<char>::empty(),
    }) + (match c.domain {
        Some(d) => "; Domain="@ + d@,
        None => Seq::<char>::empty(),
    }) + (match c.path {
        Some(p) => "; Path="@ + p@,
        None => Seq::<char>::empty(),
    }) + (if c.secure {
        "; Secure"@
    } else {
        Seq::<char>::empty()
    }) + (if c.http_only {
        "; HTTPOnly"@
    } else {
        Seq::<char>::empty()
    }) + "; SameSite="@ + c.same_site.spec_word()
}

impl Cookie {
    /// An expiry date, when set, lies before year 9999.
    pub open spec fn wf(&self) -> bool {
        match self.expires {
            Some(t) => t < EXPIRES_LIMIT,
            None => true,
        }
    }

    /// A cookie holding only a name and a value, with the default `Lax`
    /// same-site attribute and no other attribute set.
    pub fn new(name: &str, value: &str) -> (r: Cookie)
        ensures
            r.name@ == name@,
            r.value@ == value@,
            r.expires is None,
            r.max_age is None,
            r.domain is None,
            r.path is None,
            !r.secure,
            !r.http_only,
            r.same_site == SameSite::Lax,
            r.wf(),
    {
        Cookie {
            name: name.to_owned(),
            value: value.to_owned(),
            expires: None,
            max_age: None,
            domain: None,
            path: None,
            secure: false,
            http_only: false,
            same_site: SameSite::Lax,
        }
    }

    /// Sets the name.
    pub fn name(self, name: &str) -> (r: Cookie)
        ensures
            r == (Cookie { name: r.name, ..self }),
            r.name@ == name@,
    {
        Cookie { name: name.to_owned(), ..self }
    }

    /// Sets the value.
    pub fn value(self, value: &str) -> (r: Cookie)
        ensures
            r == (Cookie { value: r.value, ..self }),
            r.value@ == value@,
    {
        Cookie { value: value.to_owned(), ..self }
    }

    /// Sets the expiry date, as seconds since the Unix epoch.
    pub fn expires(self, secs: u64) -> (r: Cookie)
        requires
            secs < EXPIRES_LIMIT,
        ensures
            r == (Cookie { expires: Some(secs), ..self }),
    {
        Cookie { expires: Some(secs), ..self }
    }

    /// Sets the maximal age, in seconds.
    pub fn max_age(self, secs: i32) -> (r: Cookie)
        ensures
            r == (Cookie { max_age: Some(secs), ..self }),
    {
        Cookie { max_age: Some(secs), ..self }
    }

    /// Sets the domain.
    pub fn domain(self, domain: &str) -> (r: Cookie)
        ensures
            r == (Cookie { domain: r.domain, ..self }),
            r.domain matches Some(d) && d@ == domain@,
    {
        Cookie { domain: Some(domain.to_owned()), ..self }
    }

    /// Sets the path.
    pub fn path(self, path: &str) -> (r: Cookie)
        ensures
            r == (Cookie { path: r.path, ..self }),
            r.path matches Some(p) && p@ == path@,
    {
        Cookie { path: Some(path.to_owned()), ..self }
    }

    /// Sets the `Secure` attribute.
    pub fn secure(self, secure: bool) -> (r: Cookie)
        ensures
            r == (Cookie { secure, ..self }),
    {
        Cookie { secure, ..self }
    }

    /// Sets the `HTTPOnly` attribute.
    pub fn http_only(self, http_only: bool) -> (r: Cookie)
        ensures
            r == (Cookie { http_only, ..self }),
    {
        Cookie { http_only, ..self }
    }

    /// Sets the `SameSite` attribute.
    pub fn same_site(self, same_site: SameSite) -> (r: Cookie)
        ensures
            r == (Cookie { same_site, ..self }),
    {
        Cookie { same_site, ..self }
    }

    /// Renders the cookie as the value of a `Set-Cookie` header.
    #[verifier::rlimit(50)]
    pub fn as_header(&self) -> (r: String)
        requires
            self.wf(),
        ensures
            r@ == spec_cookie_header(*self),
    {
        let ghost c = *self;
        let ghost part1 = c.name@ + "="@ + c.value@;
        let ghost part2 = part1 + (match c.expires {
            Some(t) => "; Expires="@ + http_date_of(t),
            None => Seq::<char>::empty(),
        });
        let ghost part3 = part2 + (match c.max_age {
            Some(m) => "; Max-Age="@ + spec_dec_signed(m as int),
            None => Seq::<char>::empty(),
        });
        let ghost part4 = part3 + (match c.domain {
            Some(d) => "; Domain="@ + d@,
            None => Seq::<char>::empty(),
        });
        let ghost part5 = part4 + (match c.path {
            Some(p) => "; Path="@ + p@,
            None => Seq::<char>::empty(),
        });
        let ghost part6 = part5 + (if c.secure {
            "; Secure"@
        } else {
            Seq::<char>::empty()
        });
        let ghost part7 = part6 + (if c.http_only {
            "; HTTPOnly"@
        } else {
            Seq::<char>::empty()
        });
        let mut header = self.name.clone();
        header.append("=");
        header.append(self.value.as_str());
        proof {
            assert(header@ =~= part1);
        }
        if let Some(expires) = self.expires {
            header.append("; Expires=");
            let date = http_date_string(expires);
            header.append(date.as_str());
        }
        proof {
            assert(header@ =~= part2);
        }
        if let Some(max_age) = self.max_age {
            header.append("; Max-Age=");
            let age = to_decimal_signed(max_age);
            header.append(age.as_str());
        }
        proof {
            assert(header@ =~= part3);
        }
        if let Some(domain) = &self.domain {
            header.append("; Domain=");
            header.append(domain.as_str());
        }
        proof {
            assert(header@ =~= part4);
        }
        if let Some(path) = &self.path {
            header.append("; Path=");
            header.append(path.as_str());
        }
        proof {
            assert(header@ =~= part5);
        }
        if self.secure {
            header.append("; Secure");
        }
        proof {
            assert(header@ =~= part6);
        }
        if self.http_only {
            header.append("; HTTPOnly");
        }
        proof {
            assert(header@ =~= part7);
        }
        header.append("; SameSite=");
        let word = self.same_site.to_string();
        header.append(word.as_str());
        proof {
            assert(header@ =~= part7 + "; SameSite="@ + c.same_site.spec_word());
            assert(spec_cookie_header(c) == part7 + "; SameSite="@ + c.same_site.spec_word());
        }
        header
    }
}

} // verus!
