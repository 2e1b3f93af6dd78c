//! A small HTTP/1.1 server toolkit: route patterns with literal, regex and
//! named-parameter segments, a strict request parser, a response builder with
//! the standard status-code table, and a per-connection dispatch runtime.

pub mod cookie;
pub mod endpoint;
pub mod method;
pub mod request;
pub mod response;
pub mod route;
pub mod runtime;
pub mod status;
pub mod strmap;
pub mod strutil;

pub use cookie::{Cookie, SameSite};
pub use endpoint::Endpoint;
pub use method::Method;
pub use request::{ParseError, Request};
pub use response::Response;
pub use route::{Route, RouteError};
pub use runtime::Runtime;
pub use status::{Status, StatusCode, StatusError};
pub use strmap::StringMap;
