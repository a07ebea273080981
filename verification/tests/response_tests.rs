use static_server::errors::{ConnectionError, ErrorPages};
use static_server::response::{
    protocol_warning, HttpProtocols, HttpResponse, HttpResponseOptions, HttpResponseStatusCode,
};

#[test]
fn new_response_defaults() {
    let resp = HttpResponse::new(HttpProtocols::OneOne);
    assert_eq!(resp.get_header(), "HTTP/1.1 200 Ok\r\n\r\n");
    assert_eq!(resp.payload().len(), 0);
}

#[test]
fn header_with_zero_options_ends_with_blank_line() {
    let resp = HttpResponse::new(HttpProtocols::OneOne);
    let header = resp.get_header();
    assert!(header.ends_with("\r\n\r\n"));
    assert!(!header.ends_with("\r\n\r\n\r\n"));
}

#[test]
fn header_with_options_ends_with_exactly_one_blank_line() {
    let mut resp = HttpResponse::new(HttpProtocols::OneOne);
    resp.append_option(HttpResponseOptions::ContentType, String::from("text/html"));
    let header = resp.get_header();
    assert!(header.ends_with("\r\n\r\n"));
    assert!(!header.ends_with("\r\n\r\n\r\n"));
    resp.append_option(HttpResponseOptions::ContentLength, String::from("5"));
    let header = resp.get_header();
    assert!(header.ends_with("\r\n\r\n"));
    assert!(!header.ends_with("\r\n\r\n\r\n"));
    assert_eq!(
        header,
        "HTTP/1.1 200 Ok\r\nContent-Type: text/html\r\nContent-Length: 5\r\n\r\n"
    );
}

#[test]
fn set_status_changes_status_line() {
    let mut resp = HttpResponse::new(HttpProtocols::OneOne);
    resp.set_status(HttpResponseStatusCode::NotFound);
    assert_eq!(resp.get_header(), "HTTP/1.1 404 Not Found\r\n\r\n");
    resp.set_status(HttpResponseStatusCode::InternalServerError);
    assert_eq!(resp.get_header(), "HTTP/1.1 500 Internal Server Error\r\n\r\n");
}

#[test]
fn append_option_upserts() {
    let mut resp = HttpResponse::new(HttpProtocols::OneOne);
    resp.append_option(HttpResponseOptions::ContentType, String::from("text/css"));
    resp.append_option(HttpResponseOptions::ContentType, String::from("image/png"));
    assert_eq!(
        resp.get_header(),
        "HTTP/1.1 200 Ok\r\nContent-Type: image/png\r\n\r\n"
    );
}

#[test]
fn append_payload_replaces_wholesale() {
    let mut resp = HttpResponse::new(HttpProtocols::OneOne);
    resp.append_payload(vec![1u8, 2, 3]);
    resp.append_payload(vec![9u8]);
    assert_eq!(resp.payload().as_slice(), &[9u8]);
}

#[test]
fn option_names() {
    assert_eq!(HttpResponseOptions::ContentType.get_name(), "Content-Type");
    assert_eq!(HttpResponseOptions::ContentLength.get_name(), "Content-Length");
}

#[test]
fn protocol_names() {
    assert_eq!(HttpProtocols::ZeroNine.get_name(), "HTTP/0.9");
    assert_eq!(HttpProtocols::One.get_name(), "HTTP/1.0");
    assert_eq!(HttpProtocols::OneOne.get_name(), "HTTP/1.1");
    assert_eq!(HttpProtocols::Two.get_name(), "HTTP/2.0");
}

#[test]
fn status_headers() {
    assert_eq!(HttpResponseStatusCode::OK.get_header(), "200 Ok");
    assert_eq!(HttpResponseStatusCode::NotFound.get_header(), "404 Not Found");
    assert_eq!(
        HttpResponseStatusCode::InternalServerError.get_header(),
        "500 Internal Server Error"
    );
}

#[test]
fn warning_only_off_http11() {
    assert!(protocol_warning(&HttpProtocols::OneOne).is_none());
    let w = protocol_warning(&HttpProtocols::Two).unwrap();
    assert_eq!(
        w,
        "Warning! You are using the \"HTTP/2.0\" HTTP protocol, which is not directly supported by this library. Only proceed if you know what you are doing!"
    );
}

#[test]
fn read_failure_is_bare_bad_request_line() {
    let pages = ErrorPages::new(None, None);
    let msg = ConnectionError::TCPReadFailed.get_html_err_msg(&pages);
    assert_eq!(msg, "HTTP/1.1 400 BAD REQUEST");
}

#[test]
fn error_pages_rendered_from_file_text() {
    let pages = ErrorPages::new(Some("<h1>gone</h1>"), Some("<h1>broken</h1>"));
    assert_eq!(
        ConnectionError::SourceNotFound.get_html_err_msg(&pages),
        "HTTP/1.1 404 NOT FOUND\r\nContent-Len: 13\r\n\r\n<h1>gone</h1>"
    );
    assert_eq!(
        ConnectionError::InternalServerErr.get_html_err_msg(&pages),
        "HTTP/1.1 500 Internal Server Error\r\nContent-Len: 15\r\n\r\n<h1>broken</h1>"
    );
}

#[test]
fn error_pages_fallback_when_files_unreadable() {
    let pages = ErrorPages::new(None, None);
    assert_eq!(
        ConnectionError::SourceNotFound.get_html_err_msg(&pages),
        "HTTP/1.1 404 NOT FOUND\r\nContent-Len: 38\r\n\r\n<html><body><h1>404</h1></body></html>"
    );
    assert_eq!(
        ConnectionError::InternalServerErr.get_html_err_msg(&pages),
        "HTTP/1.1 500 Internal Server Error\r\nContent-Len: 38\r\n\r\n<html><body><h1>500</h1></body></html>"
    );
}

#[test]
fn cached_error_bytes_stable_across_occurrences() {
    // The cache is computed once from the page text; later occurrences of
    // the same kind serve the very same bytes, whatever has since happened
    // to the file the text came from.
    let pages = ErrorPages::new(Some("<h1>gone</h1>"), None);
    let first = ConnectionError::SourceNotFound.get_html_err_msg(&pages).to_string();
    let second = ConnectionError::SourceNotFound.get_html_err_msg(&pages).to_string();
    assert_eq!(first, second);
    assert_eq!(first, "HTTP/1.1 404 NOT FOUND\r\nContent-Len: 13\r\n\r\n<h1>gone</h1>");
}
