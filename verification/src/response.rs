//! The response data model: protocol, status line, header options and
//! payload, with the serialization of the status line and header block.

use vstd::prelude::*;
use crate::strutil::decimal_chars;

verus! {

/// The header names a response can carry.
#[derive(Debug, Hash, PartialEq, Eq, Structural, Clone, Copy)]
pub enum HttpResponseOptions {
    ContentType,
    ContentLength,
}

/// The wire text of a header name.
pub open spec fn option_name_spec(o: HttpResponseOptions) -> Seq<char> {
    match o {
        HttpResponseOptions::ContentType => "Content-Type"@,
        HttpResponseOptions::ContentLength => "Content-Length"@,
    }
}

impl HttpResponseOptions {
    /// The header-name text emitted on the wire for this option.
    pub fn get_name(&self) -> (r: &str)
        ensures
            r@ == option_name_spec(*self),
    {
        match self {
            HttpResponseOptions::ContentType => "Content-Type",
            HttpResponseOptions::ContentLength => "Content-Length",
        }
    }
}

/// The protocol versions a response can name. Only `OneOne` (HTTP/1.1) is
/// fully supported; constructing a response with any other one warrants a
/// warning, which `protocol_warning` renders.
#[derive(Debug, PartialEq, Eq, Structural, Clone, Copy)]
pub enum HttpProtocols {
    ZeroNine,
    One,
    OneOne,
    Two,
}

/// The wire text of a protocol version.
pub open spec fn protocol_name_spec(p: HttpProtocols) -> Seq<char> {
    match p {
        HttpProtocols::ZeroNine => "HTTP/0.9"@,
        HttpProtocols::One => "HTTP/1.0"@,
        HttpProtocols::OneOne => "HTTP/1.1"@,
        HttpProtocols::Two => "HTTP/2.0"@,
    }
}

impl HttpProtocols {
    /// The protocol text emitted at the start of the status line.
    pub fn get_name(&self) -> (r: &str)
        ensures
            r@ == protocol_name_spec(*self),
    {
        match self {
            HttpProtocols::ZeroNine => "HTTP/0.9",
            HttpProtocols::One => "HTTP/1.0",
            HttpProtocols::OneOne => "HTTP/1.1",
            HttpProtocols::Two => "HTTP/2.0",
        }
    }
}

/// The statuses a response can carry.
#[derive(Debug, PartialEq, Eq, Structural, Clone, Copy)]
pub enum HttpResponseStatusCode {
    OK,
    NotFound,
    InternalServerError,
}

/// The status text emitted after the protocol in the status line.
pub open spec fn status_header_spec(s: HttpResponseStatusCode) -> Seq<char> {
    match s {
        HttpResponseStatusCode::OK => "200 Ok"@,
        HttpResponseStatusCode::NotFound => "404 Not Found"@,
        HttpResponseStatusCode::InternalServerError => "500 Internal Server Error"@,
    }
}

impl HttpResponseStatusCode {
    /// The status text emitted in the status line.
    pub fn get_header(&self) -> (r: &str)
        ensures
            r@ == status_header_spec(*self),
    {
        match self {
            HttpResponseStatusCode::OK => "200 Ok",
            HttpResponseStatusCode::NotFound => "404 Not Found",
            HttpResponseStatusCode::InternalServerError => "500 Internal Server Error",
        }
    }
}

/// One HTTP response: protocol, status, the two header options (each
/// present or absent, keys unique by construction) and the payload bytes.
#[derive(Debug)]
pub struct HttpResponse {
    protocol: HttpProtocols,
    status: HttpResponseStatusCode,
    content_type: Option<String>,
    content_length: Option<String>,
    payload: Vec<u8>,
}

/// The line a present option contributes to the header block; an absent
/// option contributes nothing.
pub open spec fn option_line_spec(o: HttpResponseOptions, v: Option<Seq<char>>) -> Seq<char> {
    match v {
        None => Seq::empty(),
        Some(s) => option_name_spec(o) + ": "@ + s + "\r\n"@,
    }
}

impl HttpResponse {
    /// The protocol this response names.
    pub closed spec fn protocol_spec(&self) -> HttpProtocols {
        self.protocol
    }

    /// The status this response carries.
    pub closed spec fn status_spec(&self) -> HttpResponseStatusCode {
        self.status
    }

    /// The value stored for a header option, if any.
    pub closed spec fn option_spec(&self, o: HttpResponseOptions) -> Option<Seq<char>> {
        let stored = match o {
            HttpResponseOptions::ContentType => self.content_type,
            HttpResponseOptions::ContentLength => self.content_length,
        };
        match stored {
            None => None,
            Some(v) => Some(v@),
        }
    }

    /// The payload bytes.
    pub closed spec fn payload_spec(&self) -> Seq<u8> {
        self.payload@
    }

    /// A `Content-Length` option, when present, states the payload's exact
    /// byte count. The model does not recompute it; whoever sets the payload
    /// must set the length, and `complete_ok_response` in the router does.
    pub open spec fn length_consistent(&self) -> bool {
        self.option_spec(HttpResponseOptions::ContentLength) matches Some(v) ==> v
            == decimal_chars(self.payload_spec().len())
    }

    /// A fresh response: the given protocol, status 200, no options, empty
    /// payload. The caller is expected to show `protocol_warning` to the
    /// operator when it returns one for this protocol.
    pub fn new(protocol: HttpProtocols) -> (r: HttpResponse)
        ensures
            r.protocol_spec() == protocol,
            r.status_spec() == HttpResponseStatusCode::OK,
            r.option_spec(HttpResponseOptions::ContentType) is None,
            r.option_spec(HttpResponseOptions::ContentLength) is None,
            r.payload_spec() == Seq::<u8>::empty(),
    {
        let r = HttpResponse {
            protocol,
            status: HttpResponseStatusCode::OK,
            content_type: None,
            content_length: None,
            payload: Vec::new(),
        };
        proof {
            assert(r.payload_spec() =~= Seq::<u8>::empty());
        }
        r
    }

    /// Overwrites the status; everything else is kept.
    pub fn set_status(&mut self, new_status: HttpResponseStatusCode)
        ensures
            final(self).status_spec() == new_status,
            final(self).protocol_spec() == old(self).protocol_spec(),
            forall|o: HttpResponseOptions| final(self).option_spec(o) == old(self).option_spec(o),
            final(self).payload_spec() == old(self).payload_spec(),
    {
        self.status = new_status;
    }

    /// Upserts one header option; the other option, the protocol, the
    /// status and the payload are kept.
    pub fn append_option(&mut self, option: HttpResponseOptions, payload: String)
        ensures
            final(self).option_spec(option) == Some(payload@),
            forall|o: HttpResponseOptions| o != option ==> final(self).option_spec(o) == old(
                self,
            ).option_spec(o),
            final(self).protocol_spec() == old(self).protocol_spec(),
            final(self).status_spec() == old(self).status_spec(),
            final(self).payload_spec() == old(self).payload_spec(),
    {
        match option {
            HttpResponseOptions::ContentType => {
                self.content_type = Some(payload);
            },
            HttpResponseOptions::ContentLength => {
                self.content_length = Some(payload);
            },
        }
    }

    /// Replaces the payload wholesale; options are kept as they are, so a
    /// stored `Content-Length` is the caller's to sync.
    pub fn append_payload(&mut self, payload: Vec<u8>)
        ensures
            final(self).payload_spec() == payload@,
            final(self).protocol_spec() == old(self).protocol_spec(),
            final(self).status_spec() == old(self).status_spec(),
            forall|o: HttpResponseOptions| final(self).option_spec(o) == old(self).option_spec(o),
    {
        self.payload = payload;
    }

    /// The payload bytes, for whoever writes them to a sink.
    pub fn payload(&self) -> (r: &Vec<u8>)
        ensures
            r@ == self.payload_spec(),
    {
        &self.payload
    }

    /// The whole header block: status line, one line per present option,
    /// and the blank-line terminator.
    pub open spec fn header_spec(&self) -> Seq<char> {
        protocol_name_spec(self.protocol_spec()) + " "@ + status_header_spec(self.status_spec())
            + "\r\n"@ + option_line_spec(
            HttpResponseOptions::ContentType,
            self.option_spec(HttpResponseOptions::ContentType),
        ) + option_line_spec(
            HttpResponseOptions::ContentLength,
            self.option_spec(HttpResponseOptions::ContentLength),
        ) + "\r\n"@
    }

    /// Serializes the status line and header block, ending with the blank
    /// line that closes the header.
    pub fn get_header(&self) -> (r: String)
        ensures
            r@ == self.header_spec(),
    {
        let mut out: String = String::new();
        out.append(self.protocol.get_name());
        out.append(" ");
        out.append(self.status.get_header());
        out.append("\r\n");
        if let Some(v) = &self.content_type {
            out.append(HttpResponseOptions::ContentType.get_name());
            out.append(": ");
            out.append(v.as_str());
            out.append("\r\n");
        }
        if let Some(v) = &self.content_length {
            out.append(HttpResponseOptions::ContentLength.get_name());
            out.append(": ");
            out.append(v.as_str());
            out.append("\r\n");
        }
        out.append("\r\n");
        proof {
            assert(out@ =~= self.header_spec());
        }
        out
    }
}

/// Whether a text's last two characters are a CRLF.
pub open spec fn ends_with_crlf(s: Seq<char>) -> bool {
    s.len() >= 2 && s[s.len() - 2] == '\r' && s[s.len() - 1] == '\n'
}

/// The serialized header always ends with a blank line: its last four
/// characters are `\r\n\r\n`, however many options are set, including none.
pub proof fn lemma_header_terminator(r: HttpResponse)
    ensures
        r.header_spec().len() >= 4,
        r.header_spec().subrange(
            r.header_spec().len() - 4,
            r.header_spec().len() as int,
        ) == "\r\n\r\n"@,
{
    reveal_strlit("\r\n");
    reveal_strlit("\r\n\r\n");
    reveal_strlit(": ");
    let h = r.header_spec();
    let l1 = option_line_spec(
        HttpResponseOptions::ContentType,
        r.option_spec(HttpResponseOptions::ContentType),
    );
    let l2 = option_line_spec(
        HttpResponseOptions::ContentLength,
        r.option_spec(HttpResponseOptions::ContentLength),
    );
    let sl = protocol_name_spec(r.protocol_spec()) + " "@ + status_header_spec(r.status_spec())
        + "\r\n"@;
    let a = sl + l1 + l2;
    assert(h =~= a + "\r\n"@);
    assert(ends_with_crlf(sl));
    if r.option_spec(HttpResponseOptions::ContentLength) is Some {
        assert(ends_with_crlf(l2));
        assert(ends_with_crlf(a));
    } else if r.option_spec(HttpResponseOptions::ContentType) is Some {
        assert(l2 =~= Seq::<char>::empty());
        assert(ends_with_crlf(l1));
        assert(ends_with_crlf(a));
    } else {
        assert(a =~= sl);
        assert(ends_with_crlf(a));
    }
    assert(h.subrange(h.len() - 4, h.len() as int) =~= "\r\n\r\n"@);
}

/// And the blank line at the end is the only one there: nothing else blank
/// directly precedes it, as long as no stored option value itself ends in
/// `\r\n` (a value that does reproduces the terminator early).
pub proof fn lemma_header_single_terminator(r: HttpResponse)
    requires
        forall|o: HttpResponseOptions| #[trigger]
            r.option_spec(o) matches Some(v) ==> !ends_with_crlf(v),
    ensures
        r.header_spec().len() >= 6,
        !(r.header_spec()[r.header_spec().len() - 6] == '\r' && r.header_spec()[r.header_spec().len()
            - 5] == '\n'),
{
    reveal_strlit("\r\n");
    reveal_strlit(": ");
    reveal_strlit(" ");
    reveal_strlit("HTTP/0.9");
    reveal_strlit("HTTP/1.0");
    reveal_strlit("HTTP/1.1");
    reveal_strlit("HTTP/2.0");
    reveal_strlit("200 Ok");
    reveal_strlit("404 Not Found");
    reveal_strlit("500 Internal Server Error");
    reveal_strlit("Content-Type");
    reveal_strlit("Content-Length");
    let h = r.header_spec();
    let l1 = option_line_spec(
        HttpResponseOptions::ContentType,
        r.option_spec(HttpResponseOptions::ContentType),
    );
    let l2 = option_line_spec(
        HttpResponseOptions::ContentLength,
        r.option_spec(HttpResponseOptions::ContentLength),
    );
    let sl = protocol_name_spec(r.protocol_spec()) + " "@ + status_header_spec(r.status_spec())
        + "\r\n"@;
    let a = sl + l1 + l2;
    assert(h =~= a + "\r\n"@);
    assert(protocol_name_spec(r.protocol_spec()).len() == 8);
    assert(status_header_spec(r.status_spec()).len() >= 6);
    assert(sl.len() >= 17);
    if let Some(v) = r.option_spec(HttpResponseOptions::ContentLength) {
        let name = option_name_spec(HttpResponseOptions::ContentLength);
        assert(l2 =~= name + ": "@ + v + "\r\n"@);
        if v.len() == 0 {
            assert(a[a.len() - 3] == ' ');
        } else if v.len() == 1 {
            assert(a[a.len() - 4] == ' ');
        } else {
            assert(a[a.len() - 4] == v[v.len() - 2] && a[a.len() - 3] == v[v.len() - 1]);
        }
    } else if let Some(v) = r.option_spec(HttpResponseOptions::ContentType) {
        let name = option_name_spec(HttpResponseOptions::ContentType);
        assert(l2 =~= Seq::<char>::empty());
        assert(l1 =~= name + ": "@ + v + "\r\n"@);
        if v.len() == 0 {
            assert(a[a.len() - 3] == ' ');
        } else if v.len() == 1 {
            assert(a[a.len() - 4] == ' ');
        } else {
            assert(a[a.len() - 4] == v[v.len() - 2] && a[a.len() - 3] == v[v.len() - 1]);
        }
    } else {
        let st = status_header_spec(r.status_spec());
        assert(a =~= sl);
        assert(a[a.len() - 3] == st[st.len() - 1] && a[a.len() - 4] == st[st.len() - 2]);
        assert(!(a[a.len() - 4] == '\r' && a[a.len() - 3] == '\n'));
    }
    assert(h[h.len() - 6] == a[a.len() - 4] && h[h.len() - 5] == a[a.len() - 3]);
}

/// The advisory text to log when a response is built for a protocol other
/// than HTTP/1.1; `None` for HTTP/1.1 itself.
pub open spec fn protocol_warning_spec(p: HttpProtocols) -> Option<Seq<char>> {
    if p == HttpProtocols::OneOne {
        None
    } else {
        Some(
            "Warning! You are using the \""@ + protocol_name_spec(p)
                + "\" HTTP protocol, which is not directly supported by this library. Only proceed if you know what you are doing!"@,
        )
    }
}

/// Renders the warning owed for a protocol, if one is owed. Printing it is
/// the caller's business: this model does no I/O.
pub fn protocol_warning(protocol: &HttpProtocols) -> (r: Option<String>)
    ensures
        match r {
            Some(s) => protocol_warning_spec(*protocol) == Some(s@),
            None => *protocol == HttpProtocols::OneOne,
        },
{
    match protocol {
        HttpProtocols::OneOne => None,
        _ => {
            let mut out: String = String::new();
            out.append("Warning! You are using the \"");
            out.append(protocol.get_name());
            out.append(
                "\" HTTP protocol, which is not directly supported by this library. Only proceed if you know what you are doing!",
            );
            proof {
                assert(Some(out@) =~= protocol_warning_spec(*protocol));
            }
            Some(out)
        },
    }
}

} // verus!
