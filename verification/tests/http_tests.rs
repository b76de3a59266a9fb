use scd40_monitor::http::bytes_eq;
use scd40_monitor::http::find_head_end;
use scd40_monitor::http::parse_request_line;
use scd40_monitor::http::route;
use scd40_monitor::http::Route;

#[test]
fn request_line_parses_into_method_and_path() {
    let rl = parse_request_line(b"GET /data HTTP/1.1").expect("well-formed line");
    assert_eq!(rl.method, b"GET".to_vec());
    assert_eq!(rl.path, b"/data".to_vec());
}

#[test]
fn request_line_with_plain_version_token_parses() {
    let rl = parse_request_line(b"POST / x").expect("three tokens are enough");
    assert_eq!(rl.method, b"POST".to_vec());
    assert_eq!(rl.path, b"/".to_vec());
}

#[test]
fn malformed_request_lines_are_rejected() {
    assert!(parse_request_line(b"").is_none());
    assert!(parse_request_line(b"GET").is_none());
    assert!(parse_request_line(b"GET /data").is_none());
    assert!(parse_request_line(b"GET /data ").is_none());
    assert!(parse_request_line(b" /data HTTP/1.1").is_none());
    assert!(parse_request_line(b"GET  /data HTTP/1.1").is_none());
}

#[test]
fn route_table_serves_three_get_paths() {
    assert_eq!(route(b"GET", b"/"), Route::Index);
    assert_eq!(route(b"GET", b"/main.css"), Route::Stylesheet);
    assert_eq!(route(b"GET", b"/data"), Route::SensorData);
}

#[test]
fn unknown_paths_and_methods_are_not_found() {
    assert_eq!(route(b"GET", b"/nope"), Route::NotFound);
    assert_eq!(route(b"GET", b"/data/co2/x"), Route::NotFound);
    assert_eq!(route(b"POST", b"/data"), Route::NotFound);
    assert_eq!(route(b"get", b"/data"), Route::NotFound);
}

#[test]
fn head_end_is_the_first_empty_line() {
    assert_eq!(find_head_end(b"GET / HTTP/1.1\r\n\r\n"), Some(14));
    assert_eq!(find_head_end(b"GET / HTTP/1.1\r\nHost: a\r\n\r\nrest"), Some(23));
    assert_eq!(find_head_end(b"GET / HTTP/1.1\r\n"), None);
    assert_eq!(find_head_end(b""), None);
}

#[test]
fn bytes_eq_compares_exactly() {
    assert!(bytes_eq(b"", b""));
    assert!(bytes_eq(b"abc", b"abc"));
    assert!(!bytes_eq(b"abc", b"abd"));
    assert!(!bytes_eq(b"abc", b"abcd"));
}
