use problem_details::error::AppError;
use problem_details::response::{handler, ProblemResponse, PROBLEM_CONTENT_TYPE};

const INTERNAL_BODY: &str = "{\"type\":\"https://example.com/probs/internal-server-error\",\"title\":\"Internal Server Error\",\"status\":500,\"detail\":\"An unexpected error occurred\",\"instance\":\"/\"}";

fn handler_response() -> ProblemResponse {
    match handler() {
        Ok(_) => panic!("the handler must fail"),
        Err(e) => e.into_response(),
    }
}

fn body_members(r: &ProblemResponse) -> serde_json::Map<String, serde_json::Value> {
    let v: serde_json::Value = serde_json::from_str(&r.body).expect("body is JSON");
    v.as_object().expect("body is an object").clone()
}

#[test]
fn get_root_gives_internal_server_error() {
    let r = handler_response();
    assert_eq!(r.status, 500);
    assert_eq!(r.content_type, "application/problem+json");
    assert_eq!(r.body, INTERNAL_BODY);
}

#[test]
fn handler_fails_with_internal_server_error() {
    assert!(matches!(handler(), Err(AppError::InternalServerError(_))));
}

#[test]
fn same_request_twice_gives_same_bytes() {
    let a = handler_response();
    let b = handler_response();
    assert_eq!(a.status, b.status);
    assert_eq!(a.body, b.body);
}

#[test]
fn rejected_request_gives_bad_request() {
    let r = AppError::reject("missing field x".to_string()).into_response();
    assert_eq!(r.status, 400);
    let m = body_members(&r);
    assert_eq!(m["title"], "Bad Request");
    assert_eq!(m["status"], 400);
}

#[test]
fn bad_request_with_empty_message() {
    let r = AppError::BadRequest(String::new()).into_response();
    assert_eq!(r.status, 400);
    assert_eq!(
        r.body,
        "{\"type\":\"https://example.com/probs/internal-server-error\",\"title\":\"Bad Request\",\"status\":400,\"detail\":\"An unexpected error occurred\",\"instance\":\"/\"}"
    );
}

#[test]
fn internal_error_ignores_its_cause() {
    for cause in ["", "disk full", "quote \" and \\ backslash"] {
        let r = AppError::wrap(anyhow::Error::msg(cause)).into_response();
        assert_eq!(r.status, 500);
        assert_eq!(r.body, INTERNAL_BODY);
    }
}

#[test]
fn status_line_matches_status_member() {
    let errors = vec![
        AppError::from(anyhow::Error::msg("boom")),
        AppError::BadRequest("bad".to_string()),
    ];
    for e in errors {
        let r = e.into_response();
        assert_eq!(body_members(&r)["status"].as_u64(), Some(r.status as u64));
    }
}

#[test]
fn content_type_is_problem_json() {
    assert_eq!(PROBLEM_CONTENT_TYPE, "application/problem+json");
    let a = AppError::BadRequest("x".to_string()).into_response();
    let b = AppError::wrap(anyhow::Error::msg("y")).into_response();
    assert_eq!(a.content_type, "application/problem+json");
    assert_eq!(b.content_type, "application/problem+json");
}

#[test]
fn body_has_exactly_five_members() {
    let errors = vec![
        AppError::wrap(anyhow::Error::msg("boom")),
        AppError::BadRequest("bad".to_string()),
    ];
    for e in errors {
        let m = body_members(&e.into_response());
        let mut keys: Vec<&str> = m.keys().map(|k| k.as_str()).collect();
        keys.sort();
        assert_eq!(keys, vec!["detail", "instance", "status", "title", "type"]);
        assert_eq!(m["type"], "https://example.com/probs/internal-server-error");
        assert_eq!(m["detail"], "An unexpected error occurred");
        assert_eq!(m["instance"], "/");
    }
}

#[test]
fn handler_cause_says_something_went_wrong() {
    for _ in 0..2 {
        match handler() {
            Err(AppError::InternalServerError(cause)) => {
                assert_eq!(cause.to_string(), "Something went wrong");
            }
            _ => panic!("the handler must fail with an internal server error"),
        }
    }
}

#[test]
fn errors_have_debug_text() {
    let text = format!("{:?}", AppError::BadRequest("missing field x".to_string()));
    assert!(text.contains("BadRequest"));
    assert!(text.contains("missing field x"));
}
