use problem_details::error::AppError;
use problem_details::json::{json_string, push_decimal};
use problem_details::problem::ProblemDetails;

#[test]
fn titles_and_status_codes() {
    let internal = AppError::from(anyhow::Error::msg("cause"));
    assert!(matches!(internal, AppError::InternalServerError(_)));
    assert_eq!(internal.to_string(), "Internal Server Error");
    assert_eq!(internal.status_code(), 500);
    let bad = AppError::reject("why".to_string());
    assert!(matches!(&bad, AppError::BadRequest(m) if m == "why"));
    assert_eq!(bad.to_string(), "Bad Request");
    assert_eq!(bad.status_code(), 400);
}

#[test]
fn decimal_digits() {
    for (n, text) in [(0u16, "0"), (7, "7"), (10, "10"), (400, "400"), (500, "500"), (65535, "65535")] {
        let mut s = String::new();
        push_decimal(&mut s, n);
        assert_eq!(s, text);
    }
    let mut s = "status=".to_string();
    push_decimal(&mut s, 204);
    assert_eq!(s, "status=204");
}

#[test]
fn string_literals_are_escaped() {
    assert_eq!(json_string(""), "\"\"");
    assert_eq!(json_string("plain"), "\"plain\"");
    assert_eq!(json_string("a\"b\\c\nd"), "\"a\\\"b\\\\c\\nd\"");
}

#[test]
fn record_for_error_and_its_text() {
    let d = ProblemDetails::for_error(&AppError::BadRequest("m".to_string()));
    assert_eq!(d.problem_type, "https://example.com/probs/internal-server-error");
    assert_eq!(d.title, "Bad Request");
    assert_eq!(d.status, 400);
    assert_eq!(d.detail, "An unexpected error occurred");
    assert_eq!(d.instance, "/");

    let custom = ProblemDetails {
        problem_type: "about:blank".to_string(),
        title: "Say \"hi\"".to_string(),
        status: 404,
        detail: "".to_string(),
        instance: "/a/b".to_string(),
    };
    assert_eq!(
        custom.to_json(),
        "{\"type\":\"about:blank\",\"title\":\"Say \\\"hi\\\"\",\"status\":404,\"detail\":\"\",\"instance\":\"/a/b\"}"
    );
}

#[test]
fn control_characters_are_escaped() {
    assert_eq!(json_string("\u{1}"), "\"\\u0001\"");
    assert_eq!(json_string("\u{1f}x"), "\"\\u001fx\"");
    assert_eq!(json_string("\u{8}\u{c}\r\t"), "\"\\b\\f\\r\\t\"");
    assert_eq!(json_string("\u{7f}/é"), "\"\u{7f}/é\"");
}
