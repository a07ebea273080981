use static_server::errors::ConnectionError;
use static_server::router::{complete_ok_response, extension, request_target, route_request, FileRead};

#[test]
fn target_is_second_token() {
    assert_eq!(request_target("GET /index.html HTTP/1.1"), Some(String::from("/index.html")));
    assert_eq!(request_target("GET / HTTP/1.1"), Some(String::from("/")));
    assert_eq!(request_target("GET /x"), Some(String::from("/x")));
}

#[test]
fn missing_second_token() {
    assert_eq!(request_target("GET"), None);
    assert_eq!(request_target(""), None);
    assert_eq!(request_target("GET "), Some(String::from("")));
    assert_eq!(request_target("GET  /x"), Some(String::from("")));
}

#[test]
fn extension_of_paths() {
    assert_eq!(extension("/a.css"), Some("css"));
    assert_eq!(extension("/dir/pic.png"), Some("png"));
    assert_eq!(extension("/"), None);
    assert_eq!(extension("/plain"), None);
    assert_eq!(extension("/.hidden"), None);
    assert_eq!(extension("/a.b/c"), None);
    assert_eq!(extension("/x."), Some(""));
}

#[test]
fn supported_extensions_route_with_table_content_type() {
    let cases = [
        ("/a.css", "text/css", "/a.css"),
        ("/a.png", "image/png", "/a.png"),
        ("/a.ico", "image/x-icon", "/a.ico"),
        ("/a.js", "application/javascript", "/a.js"),
        ("/a.wasm", "application/wasm", "/a.wasm"),
        ("/a.html", "text/html", "/a.html.html"),
        ("/a", "text/html", "/a.html"),
    ];
    for (target, ct, path) in cases {
        let line = format!("GET {} HTTP/1.1", target);
        let route = route_request(Some(&line), "home").unwrap();
        assert_eq!(route.content_type, ct, "target {}", target);
        assert_eq!(route.path, path, "target {}", target);
    }
}

#[test]
fn ok_response_carries_type_length_and_bytes() {
    let route = route_request(Some("GET /style.css HTTP/1.1"), "home").unwrap();
    assert_eq!(route.fs_path(), "website/style.css");
    let bytes = vec![b'a', b'b', b'c'];
    let resp = complete_ok_response(route.content_type, FileRead::Content(bytes)).unwrap();
    assert_eq!(
        resp.get_header(),
        "HTTP/1.1 200 Ok\r\nContent-Type: text/css\r\nContent-Length: 3\r\n\r\n"
    );
    assert_eq!(resp.payload().as_slice(), b"abc");
}

#[test]
fn root_serves_home_document() {
    let root = route_request(Some("GET / HTTP/1.1"), "home").unwrap();
    assert_eq!(root.path, "/home.html");
    assert_eq!(root.content_type, "text/html");
    let by_name = route_request(Some("GET /home HTTP/1.1"), "home").unwrap();
    assert_eq!(root.path, by_name.path);
    assert_eq!(root.fs_path(), "website/home.html");
}

#[test]
fn root_follows_configured_home_name() {
    let route = route_request(Some("GET / HTTP/1.1"), "index").unwrap();
    assert_eq!(route.path, "/index.html");
}

#[test]
fn unsupported_extension_is_internal_error_not_not_found() {
    let r = route_request(Some("GET /run.exe HTTP/1.1"), "home");
    assert!(matches!(r, Err(ConnectionError::InternalServerErr)));
    let r = route_request(Some("GET /archive.tar.gz HTTP/1.1"), "home");
    assert!(matches!(r, Err(ConnectionError::InternalServerErr)));
}

#[test]
fn unreadable_request_line_is_read_failure() {
    assert!(matches!(route_request(None, "home"), Err(ConnectionError::TCPReadFailed)));
    assert!(matches!(route_request(Some("GET"), "home"), Err(ConnectionError::TCPReadFailed)));
    assert!(matches!(route_request(Some(""), "home"), Err(ConnectionError::TCPReadFailed)));
}

#[test]
fn failed_open_is_not_found_failed_read_is_internal() {
    let r = complete_ok_response(String::from("text/html"), FileRead::OpenFailed);
    assert!(matches!(r, Err(ConnectionError::SourceNotFound)));
    let r = complete_ok_response(String::from("text/html"), FileRead::ReadFailed);
    assert!(matches!(r, Err(ConnectionError::InternalServerErr)));
}

#[test]
fn empty_file_has_length_zero() {
    let route = route_request(Some("GET /empty.js HTTP/1.1"), "home").unwrap();
    let resp = complete_ok_response(route.content_type, FileRead::Content(Vec::new())).unwrap();
    assert_eq!(
        resp.get_header(),
        "HTTP/1.1 200 Ok\r\nContent-Type: application/javascript\r\nContent-Length: 0\r\n\r\n"
    );
    assert_eq!(resp.payload().len(), 0);
}
