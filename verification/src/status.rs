//! The standard HTTP status-code table: a fixed bidirectional mapping
//! between the registered numeric codes and their canonical reason
//! phrases, and the `Status` value a response carries.

use vstd::prelude::*;
use vstd::string::StringExecFns;

verus! {

/// A failure while building a status.
#[derive(Clone, Copy, PartialEq, Eq, Structural, Debug)]
pub enum StatusError {
    /// The numeric code is not in the status-code table.
    InvalidStatusCode,
}

/// A registered HTTP status code.
#[derive(Clone, Copy, PartialEq, Eq, Structural, Debug)]
pub enum StatusCode {
    Continue,
    SwitchingProtocol,
    Processing,
    EarlyHints,
    OK,
    Created,
    Accepted,
    NonAuthoritativeInformation,
    NoContent,
    ResetContent,
    PartialContent,
    MultiStatus,
    AlreadyReported,
    IMUsed,
    MultipleChoice,
    MovedPermanently,
    Found,
    SeeOther,
    NotModified,
    UseProxy,
    Unused,
    TemporaryRedirect,
    PermanentRedirect,
    BadRequest,
    Unauthorized,
    PaymentRequired,
    Forbidden,
    NotFound,
    MethodNotAllowed,
    NotAcceptable,
    ProxyAuthenticationRequired,
    RequestTimeout,
    Conflict,
    Gone,
    LengthRequired,
    PreconditionFailed,
    PayloadTooLarge,
    URITooLong,
    UnsupportedMediaType,
    RangeNotSatisfiable,
    ExpectationFailed,
    ImATeapot,
    MisdirectedRequest,
    UnprocessableEntity,
    Locked,
    FailedDependency,
    TooEarly,
    UpgradeRequired,
    PreconditionRequired,
    TooManyRequests,
    RequestHeaderFieldsTooLarge,
    UnavailableForLegalReasons,
    InternalServerError,
    NotImplemented,
    BadGateway,
    ServiceUnavailable,
    GatewayTimeout,
    HTTPVersionNotSupported,
    VariantAlsoNegotiates,
    InsufficientStorage,
    LoopDetected,
    NotExtended,
    NetworkAuthenticationRequired,
}

/// The status code registered under a numeric code, if any.
pub open spec fn spec_from_code(code: int) -> Option<StatusCode> {
    if code == 100 {
        Some(StatusCode::Continue)
    } else 
    if code == 101 {
        Some(StatusCode::SwitchingProtocol)
    } else 
    if code == 102 {
        Some(StatusCode::Processing)
    } else 
    if code == 103 {
        Some(StatusCode::EarlyHints)
    } else 
    if code == 200 {
        Some(StatusCode::OK)
    } else 
    if code == 201 {
        Some(StatusCode::Created)
    } else 
    if code == 202 {
        Some(StatusCode::Accepted)
    } else 
    if code == 203 {
        Some(StatusCode::NonAuthoritativeInformation)
    } else 
    if code == 204 {
        Some(StatusCode::NoContent)
    } else 
    if code == 205 {
        Some(StatusCode::ResetContent)
    } else 
    if code == 206 {
        Some(StatusCode::PartialContent)
    } else 
    if code == 207 {
        Some(StatusCode::MultiStatus)
    } else 
    if code == 208 {
        Some(StatusCode::AlreadyReported)
    } else 
    if code == 226 {
        Some(StatusCode::IMUsed)
    } else 
    if code == 300 {
        Some(StatusCode::MultipleChoice)
    } else 
    if code == 301 {
        Some(StatusCode::MovedPermanently)
    } else 
    if code == 302 {
        Some(StatusCode::Found)
    } else 
    if code == 303 {
        Some(StatusCode::SeeOther)
    } else 
    if code == 304 {
        Some(StatusCode::NotModified)
    } else 
    if code == 305 {
        Some(StatusCode::UseProxy)
    } else 
    if code == 306 {
        Some(StatusCode::Unused)
    } else 
    if code == 307 {
        Some(StatusCode::TemporaryRedirect)
    } else 
    if code == 308 {
        Some(StatusCode::PermanentRedirect)
    } else 
    if code == 400 {
        Some(StatusCode::BadRequest)
    } else 
    if code == 401 {
        Some(StatusCode::Unauthorized)
    } else 
    if code == 402 {
        Some(StatusCode::PaymentRequired)
    } else 
    if code == 403 {
        Some(StatusCode::Forbidden)
    } else 
    if code == 404 {
        Some(StatusCode::NotFound)
    } else 
    if code == 405 {
        Some(StatusCode::MethodNotAllowed)
    } else 
    if code == 406 {
        Some(StatusCode::NotAcceptable)
    } else 
    if code == 407 {
        Some(StatusCode::ProxyAuthenticationRequired)
    } else 
    if code == 408 {
        Some(StatusCode::RequestTimeout)
    } else 
    if code == 409 {
        Some(StatusCode::Conflict)
    } else 
    if code == 410 {
        Some(StatusCode::Gone)
    } else 
    if code == 411 {
        Some(StatusCode::LengthRequired)
    } else 
    if code == 412 {
        Some(StatusCode::PreconditionFailed)
    } else 
    if code == 413 {
        Some(StatusCode::PayloadTooLarge)
    } else 
    if code == 414 {
        Some(StatusCode::URITooLong)
    } else 
    if code == 415 {
        Some(StatusCode::UnsupportedMediaType)
    } else 
    if code == 416 {
        Some(StatusCode::RangeNotSatisfiable)
    } else 
    if code == 417 {
        Some(StatusCode::ExpectationFailed)
    } else 
    if code == 418 {
        Some(StatusCode::ImATeapot)
    } else 
    if code == 421 {
        Some(StatusCode::MisdirectedRequest)
    } else 
    if code == 422 {
        Some(StatusCode::UnprocessableEntity)
    } else 
    if code == 423 {
        Some(StatusCode::Locked)
    } else 
    if code == 424 {
        Some(StatusCode::FailedDependency)
    } else 
    if code == 425 {
        Some(StatusCode::TooEarly)
    } else 
    if code == 426 {
        Some(StatusCode::UpgradeRequired)
    } else 
    if code == 428 {
        Some(StatusCode::PreconditionRequired)
    } else 
    if code == 429 {
        Some(StatusCode::TooManyRequests)
    } else 
    if code == 431 {
        Some(StatusCode::RequestHeaderFieldsTooLarge)
    } else 
    if code == 451 {
        Some(StatusCode::UnavailableForLegalReasons)
    } else 
    if code == 500 {
        Some(StatusCode::InternalServerError)
    } else 
    if code == 501 {
        Some(StatusCode::NotImplemented)
    } else 
    if code == 502 {
        Some(StatusCode::BadGateway)
    } else 
    if code == 503 {
        Some(StatusCode::ServiceUnavailable)
    } else 
    if code == 504 {
        Some(StatusCode::GatewayTimeout)
    } else 
    if code == 505 {
        Some(StatusCode::HTTPVersionNotSupported)
    } else 
    if code == 506 {
        Some(StatusCode::VariantAlsoNegotiates)
    } else 
    if code == 507 {
        Some(StatusCode::InsufficientStorage)
    } else 
    if code == 508 {
        Some(StatusCode::LoopDetected)
    } else 
    if code == 510 {
        Some(StatusCode::NotExtended)
    } else 
    if code == 511 {
        Some(StatusCode::NetworkAuthenticationRequired)
    } else {
        None
    }
}

impl StatusCode {
    /// The numeric code of this status.
    pub open spec fn spec_code(self) -> int {
        match self {
            StatusCode::Continue => 100,
            StatusCode::SwitchingProtocol => 101,
            StatusCode::Processing => 102,
            StatusCode::EarlyHints => 103,
            StatusCode::OK => 200,
            StatusCode::Created => 201,
            StatusCode::Accepted => 202,
            StatusCode::NonAuthoritativeInformation => 203,
            StatusCode::NoContent => 204,
            StatusCode::ResetContent => 205,
            StatusCode::PartialContent => 206,
            StatusCode::MultiStatus => 207,
            StatusCode::AlreadyReported => 208,
            StatusCode::IMUsed => 226,
            StatusCode::MultipleChoice => 300,
            StatusCode::MovedPermanently => 301,
            StatusCode::Found => 302,
            StatusCode::SeeOther => 303,
            StatusCode::NotModified => 304,
            StatusCode::UseProxy => 305,
            StatusCode::Unused => 306,
            StatusCode::TemporaryRedirect => 307,
            StatusCode::PermanentRedirect => 308,
            StatusCode::BadRequest => 400,
            StatusCode::Unauthorized => 401,
            StatusCode::PaymentRequired => 402,
            StatusCode::Forbidden => 403,
            StatusCode::NotFound => 404,
            StatusCode::MethodNotAllowed => 405,
            StatusCode::NotAcceptable => 406,
            StatusCode::ProxyAuthenticationRequired => 407,
            StatusCode::RequestTimeout => 408,
            StatusCode::Conflict => 409,
            StatusCode::Gone => 410,
            StatusCode::LengthRequired => 411,
            StatusCode::PreconditionFailed => 412,
            StatusCode::PayloadTooLarge => 413,
            StatusCode::URITooLong => 414,
            StatusCode::UnsupportedMediaType => 415,
            StatusCode::RangeNotSatisfiable => 416,
            StatusCode::ExpectationFailed => 417,
            StatusCode::ImATeapot => 418,
            StatusCode::MisdirectedRequest => 421,
            StatusCode::UnprocessableEntity => 422,
            StatusCode::Locked => 423,
            StatusCode::FailedDependency => 424,
            StatusCode::TooEarly => 425,
            StatusCode::UpgradeRequired => 426,
            StatusCode::PreconditionRequired => 428,
            StatusCode::TooManyRequests => 429,
            StatusCode::RequestHeaderFieldsTooLarge => 431,
            StatusCode::UnavailableForLegalReasons => 451,
            StatusCode::InternalServerError => 500,
            StatusCode::NotImplemented => 501,
            StatusCode::BadGateway => 502,
            StatusCode::ServiceUnavailable => 503,
            StatusCode::GatewayTimeout => 504,
            StatusCode::HTTPVersionNotSupported => 505,
            StatusCode::VariantAlsoNegotiates => 506,
            StatusCode::InsufficientStorage => 507,
            StatusCode::LoopDetected => 508,
            StatusCode::NotExtended => 510,
            StatusCode::NetworkAuthenticationRequired => 511,
        }
    }

    /// The canonical reason phrase of this status.
    pub open spec fn spec_phrase(self) -> Seq<char> {
        match self {
            StatusCode::Continue => "Continue"@,
            StatusCode::SwitchingProtocol => "Switching Protocol"@,
            StatusCode::Processing => "Processing"@,
            StatusCode::EarlyHints => "Early Hints"@,
            StatusCode::OK => "OK"@,
            StatusCode::Created => "Created"@,
            StatusCode::Accepted => "Accepted"@,
            StatusCode::NonAuthoritativeInformation => "Non-Authoritative Information"@,
            StatusCode::NoContent => "No Content"@,
            StatusCode::ResetContent => "Reset Content"@,
            StatusCode::PartialContent => "Partial Content"@,
            StatusCode::MultiStatus => "Multi-Status"@,
            StatusCode::AlreadyReported => "Already Reported"@,
            StatusCode::IMUsed => "IM Used"@,
            StatusCode::MultipleChoice => "Multiple Choice"@,
            StatusCode::MovedPermanently => "Moved Permanently"@,
            StatusCode::Found => "Found"@,
            StatusCode::SeeOther => "See Other"@,
            StatusCode::NotModified => "Not Modified"@,
            StatusCode::UseProxy => "Use Proxy"@,
            StatusCode::Unused => "unused"@,
            StatusCode::TemporaryRedirect => "Temporary Redirect"@,
            StatusCode::PermanentRedirect => "Permanent Redirect"@,
            StatusCode::BadRequest => "Bad Request"@,
            StatusCode::Unauthorized => "Unauthorized"@,
            StatusCode::PaymentRequired => "Payment Required"@,
            StatusCode::Forbidden => "Forbidden"@,
            StatusCode::NotFound => "Not Found"@,
            StatusCode::MethodNotAllowed => "Method Not Allowed"@,
            StatusCode::NotAcceptable => "Not Acceptable"@,
            StatusCode::ProxyAuthenticationRequired => "Proxy Authentication Required"@,
            StatusCode::RequestTimeout => "Request Timeout"@,
            StatusCode::Conflict => "Conflict"@,
            StatusCode::Gone => "Gone"@,
            StatusCode::LengthRequired => "Length Required"@,
            StatusCode::PreconditionFailed => "Precondition Failed"@,
            StatusCode::PayloadTooLarge => "Payload Too Large"@,
            StatusCode::URITooLong => "URI Too Long"@,
            StatusCode::UnsupportedMediaType => "Unsupported Media Type"@,
            StatusCode::RangeNotSatisfiable => "Range Not Satisfiable"@,
            StatusCode::ExpectationFailed => "Expectation Failed"@,
            StatusCode::ImATeapot => "I'm a teapot"@,
            StatusCode::MisdirectedRequest => "Misdirected Request"@,
            StatusCode::UnprocessableEntity => "Unprocessable Entity"@,
            StatusCode::Locked => "Locked"@,
            StatusCode::FailedDependency => "Failed Dependency"@,
            StatusCode::TooEarly => "Too Early"@,
            StatusCode::UpgradeRequired => "Upgrade Required"@,
            StatusCode::PreconditionRequired => "Precondition Required"@,
            StatusCode::TooManyRequests => "Too Many Requests"@,
            StatusCode::RequestHeaderFieldsTooLarge => "Request Header Fields Too Large"@,
            StatusCode::UnavailableForLegalReasons => "Unavailable For Legal Reasons"@,
            StatusCode::InternalServerError => "Internal Server Error"@,
            StatusCode::NotImplemented => "Not Implemented"@,
            StatusCode::BadGateway => "Bad Gateway"@,
            StatusCode::ServiceUnavailable => "Service Unavailable"@,
            StatusCode::GatewayTimeout => "Gateway Timeout"@,
            StatusCode::HTTPVersionNotSupported => "HTTP Version Not Supported"@,
            StatusCode::VariantAlsoNegotiates => "Variant Also Negotiates"@,
            StatusCode::InsufficientStorage => "Insufficient Storage"@,
            StatusCode::LoopDetected => "Loop Detected"@,
            StatusCode::NotExtended => "Not Extended"@,
            StatusCode::NetworkAuthenticationRequired => "Network Authentication Required"@,
        }
    }

    /// The numeric code of this status.
    pub fn code(&self) -> (r: u16)
        ensures
            r as int == self.spec_code(),
    {
        match self {
            StatusCode::Continue => 100,
            StatusCode::SwitchingProtocol => 101,
            StatusCode::Processing => 102,
            StatusCode::EarlyHints => 103,
            StatusCode::OK => 200,
            StatusCode::Created => 201,
            StatusCode::Accepted => 202,
            StatusCode::NonAuthoritativeInformation => 203,
            StatusCode::NoContent => 204,
            StatusCode::ResetContent => 205,
            StatusCode::PartialContent => 206,
            StatusCode::MultiStatus => 207,
            StatusCode::AlreadyReported => 208,
            StatusCode::IMUsed => 226,
            StatusCode::MultipleChoice => 300,
            StatusCode::MovedPermanently => 301,
            StatusCode::Found => 302,
            StatusCode::SeeOther => 303,
            StatusCode::NotModified => 304,
            StatusCode::UseProxy => 305,
            StatusCode::Unused => 306,
            StatusCode::TemporaryRedirect => 307,
            StatusCode::PermanentRedirect => 308,
            StatusCode::BadRequest => 400,
            StatusCode::Unauthorized => 401,
            StatusCode::PaymentRequired => 402,
            StatusCode::Forbidden => 403,
            StatusCode::NotFound => 404,
            StatusCode::MethodNotAllowed => 405,
            StatusCode::NotAcceptable => 406,
            StatusCode::ProxyAuthenticationRequired => 407,
            StatusCode::RequestTimeout => 408,
            StatusCode::Conflict => 409,
            StatusCode::Gone => 410,
            StatusCode::LengthRequired => 411,
            StatusCode::PreconditionFailed => 412,
            StatusCode::PayloadTooLarge => 413,
            StatusCode::URITooLong => 414,
            StatusCode::UnsupportedMediaType => 415,
            StatusCode::RangeNotSatisfiable => 416,
            StatusCode::ExpectationFailed => 417,
            StatusCode::ImATeapot => 418,
            StatusCode::MisdirectedRequest => 421,
            StatusCode::UnprocessableEntity => 422,
            StatusCode::Locked => 423,
            StatusCode::FailedDependency => 424,
            StatusCode::TooEarly => 425,
            StatusCode::UpgradeRequired => 426,
            StatusCode::PreconditionRequired => 428,
            StatusCode::TooManyRequests => 429,
            StatusCode::RequestHeaderFieldsTooLarge => 431,
            StatusCode::UnavailableForLegalReasons => 451,
            StatusCode::InternalServerError => 500,
            StatusCode::NotImplemented => 501,
            StatusCode::BadGateway => 502,
            StatusCode::ServiceUnavailable => 503,
            StatusCode::GatewayTimeout => 504,
            StatusCode::HTTPVersionNotSupported => 505,
            StatusCode::VariantAlsoNegotiates => 506,
            StatusCode::InsufficientStorage => 507,
            StatusCode::LoopDetected => 508,
            StatusCode::NotExtended => 510,
            StatusCode::NetworkAuthenticationRequired => 511,
        }
    }

    /// The canonical reason phrase of this status.
    pub fn to_string(&self) -> (r: String)
        ensures
            r@ == self.spec_phrase(),
    {
        match self {
            StatusCode::Continue => String::from_str("Continue"),
            StatusCode::SwitchingProtocol => String::from_str("Switching Protocol"),
            StatusCode::Processing => String::from_str("Processing"),
            StatusCode::EarlyHints => String::from_str("Early Hints"),
            StatusCode::OK => String::from_str("OK"),
            StatusCode::Created => String::from_str("Created"),
            StatusCode::Accepted => String::from_str("Accepted"),
            StatusCode::NonAuthoritativeInformation => String::from_str("Non-Authoritative Information"),
            StatusCode::NoContent => String::from_str("No Content"),
            StatusCode::ResetContent => String::from_str("Reset Content"),
            StatusCode::PartialContent => String::from_str("Partial Content"),
            StatusCode::MultiStatus => String::from_str("Multi-Status"),
            StatusCode::AlreadyReported => String::from_str("Already Reported"),
            StatusCode::IMUsed => String::from_str("IM Used"),
            StatusCode::MultipleChoice => String::from_str("Multiple Choice"),
            StatusCode::MovedPermanently => String::from_str("Moved Permanently"),
            StatusCode::Found => String::from_str("Found"),
            StatusCode::SeeOther => String::from_str("See Other"),
            StatusCode::NotModified => String::from_str("Not Modified"),
            StatusCode::UseProxy => String::from_str("Use Proxy"),
            StatusCode::Unused => String::from_str("unused"),
            StatusCode::TemporaryRedirect => String::from_str("Temporary Redirect"),
            StatusCode::PermanentRedirect => String::from_str("Permanent Redirect"),
            StatusCode::BadRequest => String::from_str("Bad Request"),
            StatusCode::Unauthorized => String::from_str("Unauthorized"),
            StatusCode::PaymentRequired => String::from_str("Payment Required"),
            StatusCode::Forbidden => String::from_str("Forbidden"),
            StatusCode::NotFound => String::from_str("Not Found"),
            StatusCode::MethodNotAllowed => String::from_str("Method Not Allowed"),
            StatusCode::NotAcceptable => String::from_str("Not Acceptable"),
            StatusCode::ProxyAuthenticationRequired => String::from_str("Proxy Authentication Required"),
            StatusCode::RequestTimeout => String::from_str("Request Timeout"),
            StatusCode::Conflict => String::from_str("Conflict"),
            StatusCode::Gone => String::from_str("Gone"),
            StatusCode::LengthRequired => String::from_str("Length Required"),
            StatusCode::PreconditionFailed => String::from_str("Precondition Failed"),
            StatusCode::PayloadTooLarge => String::from_str("Payload Too Large"),
            StatusCode::URITooLong => String::from_str("URI Too Long"),
            StatusCode::UnsupportedMediaType => String::from_str("Unsupported Media Type"),
            StatusCode::RangeNotSatisfiable => String::from_str("Range Not Satisfiable"),
            StatusCode::ExpectationFailed => String::from_str("Expectation Failed"),
            StatusCode::ImATeapot => String::from_str("I'm a teapot"),
            StatusCode::MisdirectedRequest => String::from_str("Misdirected Request"),
            StatusCode::UnprocessableEntity => String::from_str("Unprocessable Entity"),
            StatusCode::Locked => String::from_str("Locked"),
            StatusCode::FailedDependency => String::from_str("Failed Dependency"),
            StatusCode::TooEarly => String::from_str("Too Early"),
            StatusCode::UpgradeRequired => String::from_str("Upgrade Required"),
            StatusCode::PreconditionRequired => String::from_str("Precondition Required"),
            StatusCode::TooManyRequests => String::from_str("Too Many Requests"),
            StatusCode::RequestHeaderFieldsTooLarge => String::from_str("Request Header Fields Too Large"),
            StatusCode::UnavailableForLegalReasons => String::from_str("Unavailable For Legal Reasons"),
            StatusCode::InternalServerError => String::from_str("Internal Server Error"),
            StatusCode::NotImplemented => String::from_str("Not Implemented"),
            StatusCode::BadGateway => String::from_str("Bad Gateway"),
            StatusCode::ServiceUnavailable => String::from_str("Service Unavailable"),
            StatusCode::GatewayTimeout => String::from_str("Gateway Timeout"),
            StatusCode::HTTPVersionNotSupported => String::from_str("HTTP Version Not Supported"),
            StatusCode::VariantAlsoNegotiates => String::from_str("Variant Also Negotiates"),
            StatusCode::InsufficientStorage => String::from_str("Insufficient Storage"),
            StatusCode::LoopDetected => String::from_str("Loop Detected"),
            StatusCode::NotExtended => String::from_str("Not Extended"),
            StatusCode::NetworkAuthenticationRequired => String::from_str("Network Authentication Required"),
        }
    }

    /// Looks a numeric code up in the table.
    pub fn from_code(code: u16) -> (r: Option<StatusCode>)
        ensures
            r == spec_from_code(code as int),
    {
        match code {
            100 => Some(StatusCode::Continue),
            101 => Some(StatusCode::SwitchingProtocol),
            102 => Some(StatusCode::Processing),
            103 => Some(StatusCode::EarlyHints),
            200 => Some(StatusCode::OK),
            201 => Some(StatusCode::Created),
            202 => Some(StatusCode::Accepted),
            203 => Some(StatusCode::NonAuthoritativeInformation),
            204 => Some(StatusCode::NoContent),
            205 => Some(StatusCode::ResetContent),
            206 => Some(StatusCode::PartialContent),
            207 => Some(StatusCode::MultiStatus),
            208 => Some(StatusCode::AlreadyReported),
            226 => Some(StatusCode::IMUsed),
            300 => Some(StatusCode::MultipleChoice),
            301 => Some(StatusCode::MovedPermanently),
            302 => Some(StatusCode::Found),
            303 => Some(StatusCode::SeeOther),
            304 => Some(StatusCode::NotModified),
            305 => Some(StatusCode::UseProxy),
            306 => Some(StatusCode::Unused),
            307 => Some(StatusCode::TemporaryRedirect),
            308 => Some(StatusCode::PermanentRedirect),
            400 => Some(StatusCode::BadRequest),
            401 => Some(StatusCode::Unauthorized),
            402 => Some(StatusCode::PaymentRequired),
            403 => Some(StatusCode::Forbidden),
            404 => Some(StatusCode::NotFound),
            405 => Some(StatusCode::MethodNotAllowed),
            406 => Some(StatusCode::NotAcceptable),
            407 => Some(StatusCode::ProxyAuthenticationRequired),
            408 => Some(StatusCode::RequestTimeout),
            409 => Some(StatusCode::Conflict),
            410 => Some(StatusCode::Gone),
            411 => Some(StatusCode::LengthRequired),
            412 => Some(StatusCode::PreconditionFailed),
            413 => Some(StatusCode::PayloadTooLarge),
            414 => Some(StatusCode::URITooLong),
            415 => Some(StatusCode::UnsupportedMediaType),
            416 => Some(StatusCode::RangeNotSatisfiable),
            417 => Some(StatusCode::ExpectationFailed),
            418 => Some(StatusCode::ImATeapot),
            421 => Some(StatusCode::MisdirectedRequest),
            422 => Some(StatusCode::UnprocessableEntity),
            423 => Some(StatusCode::Locked),
            424 => Some(StatusCode::FailedDependency),
            425 => Some(StatusCode::TooEarly),
            426 => Some(StatusCode::UpgradeRequired),
            428 => Some(StatusCode::PreconditionRequired),
            429 => Some(StatusCode::TooManyRequests),
            431 => Some(StatusCode::RequestHeaderFieldsTooLarge),
            451 => Some(StatusCode::UnavailableForLegalReasons),
            500 => Some(StatusCode::InternalServerError),
            501 => Some(StatusCode::NotImplemented),
            502 => Some(StatusCode::BadGateway),
            503 => Some(StatusCode::ServiceUnavailable),
            504 => Some(StatusCode::GatewayTimeout),
            505 => Some(StatusCode::HTTPVersionNotSupported),
            506 => Some(StatusCode::VariantAlsoNegotiates),
            507 => Some(StatusCode::InsufficientStorage),
            508 => Some(StatusCode::LoopDetected),
            510 => Some(StatusCode::NotExtended),
            511 => Some(StatusCode::NetworkAuthenticationRequired),
            _ => None,
        }
    }
}

/// Every status code is found again under its own number.
pub proof fn lemma_code_round_trip(sc: StatusCode)
    ensures
        spec_from_code(sc.spec_code()) == Some(sc),
{
}

/// A code found in the table is found under its own number: the lookup
/// and the numbering invert each other.
pub proof fn lemma_from_code_sound(code: int)
    ensures
        match spec_from_code(code) {
            Some(sc) => sc.spec_code() == code,
            None => true,
        },
{
}

/// A numeric status code together with its canonical reason phrase.
#[derive(PartialEq, Eq, Debug)]
pub struct Status {
    pub code: u16,
    pub reason: String,
}

impl Status {
    /// The code is registered and the phrase is the one the table gives it.
    pub open spec fn wf(&self) -> bool {
        match spec_from_code(self.code as int) {
            Some(sc) => self.reason@ == sc.spec_phrase(),
            None => false,
        }
    }

    /// The status a status code denotes.
    pub fn from(sc: StatusCode) -> (r: Status)
        ensures
            r.code as int == sc.spec_code(),
            r.reason@ == sc.spec_phrase(),
            r.wf(),
    {
        let r = Status { code: sc.code(), reason: sc.to_string() };
        proof {
            lemma_code_round_trip(sc);
        }
        r
    }

    /// The status registered under a numeric code; an unknown code is an
    /// error, never a panic.
    pub fn from_code(code: u16) -> (r: Result<Status, StatusError>)
        ensures
            match spec_from_code(code as int) {
                Some(sc) => r matches Ok(s) && s.code == code && s.reason@ == sc.spec_phrase()
                    && s.wf(),
                None => r == Err::<Status, StatusError>(StatusError::InvalidStatusCode),
            },
    {
        match StatusCode::from_code(code) {
            Some(sc) => Ok(Status { code, reason: sc.to_string() }),
            None => Err(StatusError::InvalidStatusCode),
        }
    }

}

} // verus!
