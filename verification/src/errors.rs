//! The closed set of per-connection failures and the pre-rendered
//! responses written for them.
//!
//! The two optional error pages are loaded from disk once at startup,
//! rendered into full responses here, and then shared read-only across
//! all connections.

use vstd::prelude::*;
use crate::respond::{error_response_of, render_error_page};

verus! {

/// How handling one connection can fail. Each failure is an isolated
/// domain: it is answered with a fixed response and never propagates
/// past the connection it arose on.
#[derive(Clone, Copy, Debug, PartialEq, Eq, Structural)]
pub enum ConnectionError {
    TCPReadFailed,
    SourceNotFound,
    InternalServerErr,
}

/// The pre-rendered error responses, built once at startup. `None`
/// means the page file was absent and a bare status line is served.
pub struct ErrorPages {
    pub not_found: Option<String>,
    pub internal: Option<String>,
}

/// The full response written for a failed connection: the pre-rendered
/// page where one was loaded, else a bare status line.
pub open spec fn err_response(e: ConnectionError, pages: ErrorPages) -> Seq<char> {
    match e {
        ConnectionError::TCPReadFailed => "HTTP/1.1 400 BAD REQUEST"@,
        ConnectionError::SourceNotFound => match pages.not_found {
            Some(p) => p@,
            None => "HTTP/1.1 404 NOT FOUND"@,
        },
        ConnectionError::InternalServerErr => match pages.internal {
            Some(p) => p@,
            None => "HTTP/1.1 500 Internal Server Error"@,
        },
    }
}

impl ErrorPages {
    /// Renders the startup-loaded page bodies (if any) into the full
    /// responses served for missing resources and internal faults.
    pub fn new(page_404: Option<String>, page_500: Option<String>) -> (r: ErrorPages)
        ensures
            r.not_found is Some <==> page_404 is Some,
            r.internal is Some <==> page_500 is Some,
            page_404 is Some ==> r.not_found->Some_0@ == error_response_of(
                "HTTP/1.1 404 NOT FOUND"@,
                page_404->Some_0@,
            ),
            page_500 is Some ==> r.internal->Some_0@ == error_response_of(
                "HTTP/1.1 500 Internal Server Error"@,
                page_500->Some_0@,
            ),
    {
        let not_found = match page_404 {
            Some(p) => Some(render_error_page("HTTP/1.1 404 NOT FOUND", p.as_str())),
            None => None,
        };
        let internal = match page_500 {
            Some(p) => Some(render_error_page("HTTP/1.1 500 Internal Server Error", p.as_str())),
            None => None,
        };
        ErrorPages { not_found, internal }
    }
}

impl ConnectionError {
    /// The response written back for this failure: `400 BAD REQUEST` for
    /// an unreadable request, the pre-rendered page (or bare status line)
    /// for a missing resource or an internal fault.
    pub fn get_html_err_msg(&self, pages: &ErrorPages) -> (r: String)
        ensures
            r@ == err_response(*self, *pages),
    {
        match self {
            ConnectionError::TCPReadFailed => String::from_str("HTTP/1.1 400 BAD REQUEST"),
            ConnectionError::SourceNotFound => match &pages.not_found {
                Some(p) => p.clone(),
                None => String::from_str("HTTP/1.1 404 NOT FOUND"),
            },
            ConnectionError::InternalServerErr => match &pages.internal {
                Some(p) => p.clone(),
                None => String::from_str("HTTP/1.1 500 Internal Server Error"),
            },
        }
    }
}

} // verus!
