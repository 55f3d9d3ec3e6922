use task_server::http::{extract_body, get_id, route, Route};
use task_server::num::parse_i32;

#[test]
fn route_selects_by_prefix_priority() {
    assert!(matches!(route("POST /tasks HTTP/1.1\r\n\r\n{}"), Route::Create));
    assert!(matches!(route("GET /tasks/7 HTTP/1.1\r\n\r\n"), Route::ReadOne));
    assert!(matches!(route("GET /tasks HTTP/1.1\r\n\r\n"), Route::ReadAll));
    assert!(matches!(route("PUT /tasks/7 HTTP/1.1\r\n\r\n{}"), Route::Update));
    assert!(matches!(route("DELETE /tasks/7 HTTP/1.1\r\n\r\n"), Route::Delete));
    assert!(matches!(route("PATCH /tasks/7 HTTP/1.1\r\n\r\n"), Route::Unmatched));
    assert!(matches!(route("GET /other HTTP/1.1\r\n\r\n"), Route::Unmatched));
}

#[test]
fn get_id_takes_third_segment_first_token() {
    assert_eq!(get_id("GET /tasks/123 HTTP/1.1\r\nHost: x\r\n\r\n"), "123");
    assert_eq!(get_id("DELETE /tasks/42 HTTP/1.1\r\n\r\n"), "42");
    assert_eq!(get_id("GET /tasks/abc HTTP/1.1\r\n\r\n"), "abc");
    // The token ends at the first white space, carriage returns included.
    assert_eq!(get_id("GET /tasks/9\r\n"), "9");
}

#[test]
fn get_id_of_requests_without_an_id_segment() {
    // Fewer than two slashes in the whole text: no third segment at all.
    assert_eq!(get_id("GET nothing"), "");
    assert_eq!(get_id(""), "");
    // The third segment exists but holds only white space.
    assert_eq!(get_id("GET /tasks/ HTTP"), "HTTP");
    assert_eq!(get_id("a/b/   "), "");
}

#[test]
fn parse_i32_accepts_signed_decimal_in_range() {
    assert_eq!(parse_i32("0"), Some(0));
    assert_eq!(parse_i32("123"), Some(123));
    assert_eq!(parse_i32("+17"), Some(17));
    assert_eq!(parse_i32("-45"), Some(-45));
    assert_eq!(parse_i32("2147483647"), Some(2147483647));
    assert_eq!(parse_i32("-2147483648"), Some(-2147483648));
}

#[test]
fn parse_i32_rejects_everything_else() {
    assert_eq!(parse_i32(""), None);
    assert_eq!(parse_i32("abc"), None);
    assert_eq!(parse_i32("12a"), None);
    assert_eq!(parse_i32("+"), None);
    assert_eq!(parse_i32("-"), None);
    assert_eq!(parse_i32(" 1"), None);
    assert_eq!(parse_i32("2147483648"), None);
    assert_eq!(parse_i32("-2147483649"), None);
    assert_eq!(parse_i32("99999999999999999999"), None);
}

#[test]
fn parse_i32_matches_std() {
    for s in [
        "0", "007", "123", "-1", "+1", "2147483647", "2147483648", "-2147483648", "-2147483649",
        "", "x", "1 ", "--3", "++3", "+-3",
    ] {
        assert_eq!(parse_i32(s), s.parse::<i32>().ok(), "input {:?}", s);
    }
}

#[test]
fn extract_body_takes_text_after_last_blank_line() {
    assert_eq!(
        extract_body("POST /tasks HTTP/1.1\r\nHost: x\r\n\r\n{\"a\":1}"),
        "{\"a\":1}"
    );
    assert_eq!(extract_body("no blank line"), "no blank line");
    assert_eq!(extract_body("a\r\n\r\nb\r\n\r\nc"), "c");
    // Splitting is non-overlapping and left to right.
    assert_eq!(extract_body("\r\n\r\n\r\n"), "\r\n");
    assert_eq!(extract_body(""), "");
}
