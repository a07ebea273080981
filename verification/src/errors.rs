//! The error taxonomy and the pre-rendered error pages. A failure is
//! classified once per connection into exactly one kind; the page bytes for
//! the two page-backed kinds are computed once, at start-up, from the page
//! files' text (or from an inline fallback) and then only read.

use vstd::prelude::*;
use crate::strutil::decimal_chars;
use crate::strutil::usize_to_string;
use vstd::string::StringSliceAdditionalSpecFns;

verus! {

/// How handling a connection fails. No payload: the kind alone picks the
/// canned response.
#[derive(Debug, PartialEq, Eq, Structural, Clone, Copy)]
pub enum ConnectionError {
    TCPReadFailed,
    SourceNotFound,
    InternalServerErr,
}

/// The byte count of a string slice, as `str::len` reports it.
pub open spec fn str_byte_len(page: &str) -> nat {
    (page.spec_bytes().len() as usize) as nat
}

/// A full pre-rendered error response: status line, a `Content-Len` header
/// carrying the page's byte count in decimal, a blank line, and the page.
pub open spec fn error_page_spec(status_line: Seq<char>, page: &str) -> Seq<char> {
    status_line + "\r\nContent-Len: "@ + decimal_chars(str_byte_len(page)) + "\r\n\r\n"@ + page@
}

fn build_error_page(status_line: &str, page: &str) -> (r: String)
    ensures
        r@ == error_page_spec(status_line@, page),
{
    let mut out: String = String::new();
    out.append(status_line);
    out.append("\r\nContent-Len: ");
    let n: usize = page.len();
    let digits = usize_to_string(n);
    out.append(digits.as_str());
    out.append("\r\n\r\n");
    out.append(page);
    proof {
        assert(out@ =~= error_page_spec(status_line@, page));
    }
    out
}

/// The two cached error responses, computed once and read for the rest of
/// the process's lifetime.
pub struct ErrorPages {
    not_found: String,
    internal: String,
}

impl ErrorPages {
    /// The full response served for `SourceNotFound`.
    pub closed spec fn not_found_spec(&self) -> Seq<char> {
        self.not_found@
    }

    /// The full response served for `InternalServerErr`.
    pub closed spec fn internal_spec(&self) -> Seq<char> {
        self.internal@
    }

    /// Renders both cached responses from the page files' text, where it
    /// could be read, or from the minimal inline fallback page otherwise.
    /// Whatever later happens to the files, these values do not change.
    pub fn new(not_found_file: Option<&str>, internal_file: Option<&str>) -> (r: ErrorPages)
        ensures
            r.not_found_spec() == match not_found_file {
                Some(p) => error_page_spec("HTTP/1.1 404 NOT FOUND"@, p),
                None => error_page_spec(
                    "HTTP/1.1 404 NOT FOUND"@,
                    "<html><body><h1>404</h1></body></html>",
                ),
            },
            r.internal_spec() == match internal_file {
                Some(p) => error_page_spec("HTTP/1.1 500 Internal Server Error"@, p),
                None => error_page_spec(
                    "HTTP/1.1 500 Internal Server Error"@,
                    "<html><body><h1>500</h1></body></html>",
                ),
            },
    {
        let not_found = match not_found_file {
            Some(p) => build_error_page("HTTP/1.1 404 NOT FOUND", p),
            None => build_error_page(
                "HTTP/1.1 404 NOT FOUND",
                "<html><body><h1>404</h1></body></html>",
            ),
        };
        let internal = match internal_file {
            Some(p) => build_error_page("HTTP/1.1 500 Internal Server Error", p),
            None => build_error_page(
                "HTTP/1.1 500 Internal Server Error",
                "<html><body><h1>500</h1></body></html>",
            ),
        };
        ErrorPages { not_found, internal }
    }
}

/// What each error kind answers with on the wire.
pub open spec fn error_message_spec(e: ConnectionError, pages: &ErrorPages) -> Seq<char> {
    match e {
        ConnectionError::TCPReadFailed => "HTTP/1.1 400 BAD REQUEST"@,
        ConnectionError::SourceNotFound => pages.not_found_spec(),
        ConnectionError::InternalServerErr => pages.internal_spec(),
    }
}

impl ConnectionError {
    /// The response text served for this error kind: the fixed bad-request
    /// line for a read failure (no headers, no body), else the cached page.
    /// A pure function of the kind and the cache: every occurrence of a
    /// kind within one process serves the same bytes.
    pub fn get_html_err_msg<'a>(&self, pages: &'a ErrorPages) -> (r: &'a str)
        ensures
            r@ == error_message_spec(*self, pages),
    {
        match self {
            ConnectionError::TCPReadFailed => "HTTP/1.1 400 BAD REQUEST",
            ConnectionError::SourceNotFound => pages.not_found.as_str(),
            ConnectionError::InternalServerErr => pages.internal.as_str(),
        }
    }
}

} // verus!
