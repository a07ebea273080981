//! The request router: extracts the request target from the request line,
//! classifies the target's extension, rewrites html routes, and completes a
//! response once the routed file's bytes (or the failure to get them) are
//! in hand. Reading the socket and the file is the caller's business.

use vstd::prelude::*;
use crate::errors::ConnectionError;
use crate::response::HttpProtocols;
use crate::response::HttpResponse;
use crate::response::HttpResponseOptions;
use crate::response::HttpResponseStatusCode;
use crate::strutil::decimal_chars;
use crate::strutil::find_from;
use crate::strutil::find_last;
use crate::strutil::first_pos_from;
use crate::strutil::last_pos;
use crate::strutil::str_eq;
use crate::strutil::usize_to_string;

verus! {

/// The request target: the second space-delimited token of the request
/// line, if the line has a space at all; the token runs to the next space
/// or to the line's end.
pub open spec fn target_of_line(line: Seq<char>) -> Option<Seq<char>> {
    match first_pos_from(line, ' ', 0) {
        None => None,
        Some(i) => {
            let j = match first_pos_from(line, ' ', i + 1) {
                None => line.len() as int,
                Some(j) => j,
            };
            Some(line.subrange(i + 1, j))
        },
    }
}

/// Extracts the request target from the request line.
pub fn request_target(line: &str) -> (r: Option<String>)
    ensures
        match r {
            Some(t) => target_of_line(line@) == Some(t@),
            None => target_of_line(line@) is None,
        },
{
    let len: usize = line.unicode_len();
    match find_from(line, ' ', 0) {
        None => None,
        Some(i) => {
            let j: usize = match find_from(line, ' ', i + 1) {
                None => len,
                Some(j) => j,
            };
            let sub = line.substring_char(i + 1, j);
            Some(sub.to_owned())
        },
    }
}

/// Start of the target's trailing component: just after the last `/`, or 0
/// when there is none.
pub open spec fn component_start(p: Seq<char>) -> int {
    match last_pos(p, '/') {
        None => 0,
        Some(i) => i + 1,
    }
}

/// The target's extension: the text after the last `.` of the trailing
/// component, that `.` not being the component's first character. `None`
/// when the component is empty or has no such `.`.
pub open spec fn extension_of(p: Seq<char>) -> Option<Seq<char>> {
    let cs = component_start(p);
    if cs >= p.len() {
        None
    } else {
        match last_pos(p.subrange(cs + 1, p.len() as int), '.') {
            None => None,
            Some(k) => Some(p.subrange(cs + 2 + k, p.len() as int)),
        }
    }
}

/// Extracts the target's extension.
pub fn extension<'a>(p: &'a str) -> (r: Option<&'a str>)
    ensures
        match r {
            Some(e) => extension_of(p@) == Some(e@),
            None => extension_of(p@) is None,
        },
{
    let len: usize = p.unicode_len();
    let cs: usize = match find_last(p, '/') {
        None => 0,
        Some(i) => i + 1,
    };
    if cs >= len {
        return None;
    }
    let tail = p.substring_char(cs + 1, len);
    let tail_len: usize = len - cs - 1;
    match find_last(tail, '.') {
        None => None,
        Some(k) => {
            let e = tail.substring_char(k + 1, tail_len);
            proof {
                assert(e@ =~= p@.subrange(cs + 2 + k, p@.len() as int));
            }
            Some(e)
        },
    }
}

/// The fixed extension table. `None` target extension and `html` both mean
/// html; anything outside the table has no content type and is refused.
pub open spec fn content_type_for(ext: Option<Seq<char>>) -> Option<Seq<char>> {
    match ext {
        None => Some("text/html"@),
        Some(e) => if e == "html"@ {
            Some("text/html"@)
        } else if e == "css"@ {
            Some("text/css"@)
        } else if e == "png"@ {
            Some("image/png"@)
        } else if e == "ico"@ {
            Some("image/x-icon"@)
        } else if e == "js"@ {
            Some("application/javascript"@)
        } else if e == "wasm"@ {
            Some("application/wasm"@)
        } else {
            None
        },
    }
}

/// Whether the html rewrite applies: no extension, or extension `html`.
pub open spec fn is_html_route(ext: Option<Seq<char>>) -> bool {
    ext is None || ext == Some("html"@)
}

/// The path the router resolves against the document root: on an html
/// route, `/` first becomes `/<home>`, and `.html` is appended; any other
/// supported target passes through unchanged.
pub open spec fn routed_path(p: Seq<char>, home: Seq<char>) -> Seq<char> {
    if is_html_route(extension_of(p)) {
        (if p == "/"@ {
            "/"@ + home
        } else {
            p
        }) + ".html"@
    } else {
        p
    }
}

/// A routed request: the path to resolve under the document root, and the
/// content type the response will declare.
pub struct Route {
    pub path: String,
    pub content_type: String,
}

impl Route {
    /// The on-disk path: the routed path under the `website` document root.
    pub fn fs_path(&self) -> (r: String)
        ensures
            r@ == "website"@ + self.path@,
    {
        let mut out: String = String::new();
        out.append("website");
        out.append(self.path.as_str());
        out
    }
}

/// The view of an optional request line.
pub open spec fn line_view(l: Option<&str>) -> Option<Seq<char>> {
    match l {
        None => None,
        Some(s) => Some(s@),
    }
}

/// What routing decides: a missing line or a line without a second token is
/// a read failure; a target outside the extension table is an internal
/// error; anything else routes.
pub open spec fn route_spec(first_line: Option<Seq<char>>, home: Seq<char>) -> Result<
    (Seq<char>, Seq<char>),
    ConnectionError,
> {
    match first_line {
        None => Err(ConnectionError::TCPReadFailed),
        Some(line) => match target_of_line(line) {
            None => Err(ConnectionError::TCPReadFailed),
            Some(t) => match content_type_for(extension_of(t)) {
                None => Err(ConnectionError::InternalServerErr),
                Some(ct) => Ok((routed_path(t, home), ct)),
            },
        },
    }
}

/// Routes one request from its request line (`None` when none could be
/// read). `home_name` is the filename stem served for `/`.
pub fn route_request(first_line: Option<&str>, home_name: &str) -> (r: Result<
    Route,
    ConnectionError,
>)
    ensures
        match r {
            Ok(route) => route_spec(line_view(first_line), home_name@) == Ok::<
                (Seq<char>, Seq<char>),
                ConnectionError,
            >((route.path@, route.content_type@)),
            Err(e) => route_spec(line_view(first_line), home_name@) == Err::<
                (Seq<char>, Seq<char>),
                ConnectionError,
            >(e),
        },
{
    let line = match first_line {
        None => {
            return Err(ConnectionError::TCPReadFailed);
        },
        Some(l) => l,
    };
    let target: String = match request_target(line) {
        None => {
            return Err(ConnectionError::TCPReadFailed);
        },
        Some(t) => t,
    };
    let ext = extension(target.as_str());
    let html_route: bool = match ext {
        None => true,
        Some(e) => str_eq(e, "html"),
    };
    if html_route {
        let mut path: String;
        if str_eq(target.as_str(), "/") {
            let mut p: String = String::new();
            p.append("/");
            p.append(home_name);
            path = p;
        } else {
            path = target;
        }
        path.append(".html");
        let mut ct: String = String::new();
        ct.append("text/html");
        proof {
            assert(path@ =~= routed_path(target@, home_name@));
        }
        return Ok(Route { path, content_type: ct });
    }
    let e = match ext {
        None => "",
        Some(e) => e,
    };
    let name: &str = if str_eq(e, "css") {
        "text/css"
    } else if str_eq(e, "png") {
        "image/png"
    } else if str_eq(e, "ico") {
        "image/x-icon"
    } else if str_eq(e, "js") {
        "application/javascript"
    } else if str_eq(e, "wasm") {
        "application/wasm"
    } else {
        return Err(ConnectionError::InternalServerErr);
    };
    let mut ct: String = String::new();
    ct.append(name);
    Ok(Route { path: target, content_type: ct })
}

/// For every supported extension, a request for an existing file is
/// answered with status 200, the extension table's content type, and a
/// `Content-Length` that is exactly the file's byte count in decimal.
pub proof fn lemma_supported_extension_served(
    t: Seq<char>,
    ct: Seq<char>,
    resp: HttpResponse,
    bytes: Seq<u8>,
)
    requires
        content_type_for(extension_of(t)) == Some(ct),
        is_ok_response(resp, ct, bytes),
    ensures
        resp.status_spec() == HttpResponseStatusCode::OK,
        resp.option_spec(HttpResponseOptions::ContentType) == content_type_for(extension_of(t)),
        resp.option_spec(HttpResponseOptions::ContentLength) == Some(decimal_chars(bytes.len())),
        resp.payload_spec() == bytes,
{
}

/// Requesting `/` serves the home document: it routes to the file
/// `/<home>.html` under the document root, and routes to the very same file
/// as requesting `/<home>` does, whenever `/<home>` is itself an html
/// route.
pub proof fn lemma_root_routes_to_home(home: Seq<char>)
    ensures
        routed_path("/"@, home) == "/"@ + home + ".html"@,
        is_html_route(extension_of("/"@ + home)) ==> routed_path("/"@ + home, home) == routed_path(
            "/"@,
            home,
        ),
{
    reveal_strlit("/");
    assert(last_pos("/"@, '/') == Some(0int));
    assert(extension_of("/"@) is None);
    assert(("/"@ + home) + ".html"@ =~= "/"@ + home + ".html"@);
    if is_html_route(extension_of("/"@ + home)) {
        if "/"@ + home == "/"@ {
            assert(routed_path("/"@ + home, home) == routed_path("/"@, home));
        } else {
            assert(routed_path("/"@ + home, home) == ("/"@ + home) + ".html"@);
        }
    }
}

/// An unsupported extension always classifies as the internal error, never
/// as not-found.
pub proof fn lemma_unsupported_extension(line: Seq<char>, home: Seq<char>, t: Seq<char>)
    requires
        target_of_line(line) == Some(t),
        content_type_for(extension_of(t)) is None,
    ensures
        route_spec(Some(line), home) == Err::<(Seq<char>, Seq<char>), ConnectionError>(
            ConnectionError::InternalServerErr,
        ),
{
}

/// A request whose first line is missing or has no second token classifies
/// as a read failure.
pub proof fn lemma_missing_target_read_failure(first_line: Option<Seq<char>>, home: Seq<char>)
    requires
        match first_line {
            None => true,
            Some(l) => target_of_line(l) is None,
        },
    ensures
        route_spec(first_line, home) == Err::<(Seq<char>, Seq<char>), ConnectionError>(
            ConnectionError::TCPReadFailed,
        ),
{
}

/// What the routed file read came to: its bytes, a failure to open it, or
/// a failure to read it once open.
pub enum FileRead {
    Content(Vec<u8>),
    OpenFailed,
    ReadFailed,
}

/// A completed successful response: HTTP/1.1, status 200, the routed
/// content type, a `Content-Length` of exactly the payload's byte count in
/// decimal, and the file's bytes as payload.
pub open spec fn is_ok_response(resp: HttpResponse, ct: Seq<char>, bytes: Seq<u8>) -> bool {
    &&& resp.protocol_spec() == HttpProtocols::OneOne
    &&& resp.status_spec() == HttpResponseStatusCode::OK
    &&& resp.option_spec(HttpResponseOptions::ContentType) == Some(ct)
    &&& resp.option_spec(HttpResponseOptions::ContentLength) == Some(decimal_chars(bytes.len()))
    &&& resp.payload_spec() == bytes
}

/// Completes the routed request from what the file read came to: bytes
/// become the 200 response for the routed content type; a failed open is
/// `SourceNotFound`; a failed read after a good open is `InternalServerErr`.
pub fn complete_ok_response(content_type: String, file: FileRead) -> (r: Result<
    HttpResponse,
    ConnectionError,
>)
    ensures
        match file {
            FileRead::Content(bytes) => match r {
                Ok(resp) => is_ok_response(resp, content_type@, bytes@) && resp.length_consistent(),
                Err(_) => false,
            },
            FileRead::OpenFailed => r == Err::<HttpResponse, ConnectionError>(
                ConnectionError::SourceNotFound,
            ),
            FileRead::ReadFailed => r == Err::<HttpResponse, ConnectionError>(
                ConnectionError::InternalServerErr,
            ),
        },
{
    match file {
        FileRead::Content(bytes) => {
            let mut resp = HttpResponse::new(HttpProtocols::OneOne);
            resp.append_option(HttpResponseOptions::ContentType, content_type);
            let lenstr: String = usize_to_string(bytes.len());
            resp.append_option(HttpResponseOptions::ContentLength, lenstr);
            resp.append_payload(bytes);
            Ok(resp)
        },
        FileRead::OpenFailed => Err(ConnectionError::SourceNotFound),
        FileRead::ReadFailed => Err(ConnectionError::InternalServerErr),
    }
}

} // verus!
