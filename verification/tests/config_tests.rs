use static_server::config::parse_config;
use static_server::strutil::{parse_bool, parse_usize, str_eq, trim, strip_quotes, usize_to_string};

fn lines(v: &[&str]) -> Vec<String> {
    v.iter().map(|s| s.to_string()).collect()
}

#[test]
fn defaults_when_no_lines() {
    let (cfg, warnings) = parse_config(&Vec::new());
    assert_eq!(cfg.ip, "127.0.0.1");
    assert_eq!(cfg.port, "8080");
    assert_eq!(cfg.threads, 20);
    assert_eq!(cfg.home_name, "home");
    assert_eq!(cfg.ssl, "");
    assert!(warnings.is_empty());
}

#[test]
fn recognized_keys_update_fields() {
    let (cfg, warnings) = parse_config(&lines(&[
        "# the server's address",
        "",
        "ip = \"0.0.0.0\"",
        "port=9000",
        "num-threads = 4",
        "home-name = \"index\"",
        "ssl-cert = cert.pem",
    ]));
    assert_eq!(cfg.ip, "0.0.0.0");
    assert_eq!(cfg.port, "9000");
    assert_eq!(cfg.threads, 4);
    assert_eq!(cfg.home_name, "index");
    assert_eq!(cfg.ssl, "cert.pem");
    assert!(warnings.is_empty());
}

#[test]
fn malformed_lines_warn_until_suppressed() {
    let (cfg, warnings) = parse_config(&lines(&[
        "bogus line",
        "a = b = c",
        "suppress-warnings = true",
        "still bogus",
    ]));
    assert_eq!(cfg.ip, "127.0.0.1");
    assert_eq!(warnings, vec!["bogus line".to_string(), "a = b = c".to_string()]);
}

#[test]
fn unparsable_values_fall_back() {
    let (cfg, _) = parse_config(&lines(&["num-threads = many"]));
    assert_eq!(cfg.threads, 20);
    let (cfg, warnings) = parse_config(&lines(&[
        "suppress-warnings = banana",
        "oops",
    ]));
    assert_eq!(cfg.threads, 20);
    // an unparsable suppression value counts as true, so no warning follows
    assert!(warnings.is_empty());
}

#[test]
fn unknown_keys_are_ignored() {
    let (cfg, warnings) = parse_config(&lines(&["colour = blue"]));
    assert_eq!(cfg.ip, "127.0.0.1");
    assert!(warnings.is_empty());
}

#[test]
fn later_lines_overwrite_earlier_ones() {
    let (cfg, _) = parse_config(&lines(&["port = 1", "port = 2"]));
    assert_eq!(cfg.port, "2");
}

#[test]
fn trim_and_quotes() {
    assert_eq!(trim("  a b\t"), "a b");
    assert_eq!(trim("\t \r\n"), "");
    assert_eq!(trim("x"), "x");
    assert_eq!(strip_quotes("\"quoted\""), "quoted");
    assert_eq!(strip_quotes("\"\"half"), "half");
    assert_eq!(strip_quotes("plain"), "plain");
    assert_eq!(strip_quotes("\"\""), "");
}

#[test]
fn decimal_parsing() {
    assert_eq!(parse_usize("42"), Some(42));
    assert_eq!(parse_usize("+42"), Some(42));
    assert_eq!(parse_usize("0"), Some(0));
    assert_eq!(parse_usize("007"), Some(7));
    assert_eq!(parse_usize(""), None);
    assert_eq!(parse_usize("+"), None);
    assert_eq!(parse_usize("4x"), None);
    assert_eq!(parse_usize("-4"), None);
    assert_eq!(parse_usize("99999999999999999999999999"), None);
}

#[test]
fn decimal_rendering() {
    assert_eq!(usize_to_string(0), "0");
    assert_eq!(usize_to_string(7), "7");
    assert_eq!(usize_to_string(10240), "10240");
    assert_eq!(usize_to_string(usize::MAX), usize::MAX.to_string());
}

#[test]
fn boolean_parsing() {
    assert_eq!(parse_bool("true"), Some(true));
    assert_eq!(parse_bool("false"), Some(false));
    assert_eq!(parse_bool("TRUE"), None);
    assert_eq!(parse_bool(""), None);
}

#[test]
fn string_equality() {
    assert!(str_eq("abc", "abc"));
    assert!(!str_eq("abc", "abd"));
    assert!(!str_eq("abc", "ab"));
    assert!(str_eq("", ""));
}
