//! Translation of an error into a complete HTTP response, and the handler of
//! the one route.
use vstd::prelude::*;

use crate::error::{AppError, INTERNAL_SERVER_ERROR_TITLE, BAD_REQUEST_TITLE};
use crate::json::{
    decimal, is_json_string_literal, json_string_of, lemma_json_string_is_literal,
    lemma_plain_json_string,
};
use crate::problem::{problem_json, ProblemDetails, PROBLEM_DETAIL, PROBLEM_INSTANCE, PROBLEM_TYPE};

verus! {

/// The media type of every error response.
pub const PROBLEM_CONTENT_TYPE: &'static str = "application/problem+json";

/// The message of the cause that the handler fails with.
pub const HANDLER_FAILURE: &'static str = "Something went wrong";

/// The greeting of the handler's success path.
pub const GREETING: &'static str = "Hello, World!";

/// An HTTP response: status code, `Content-Type` header and body.
pub struct ProblemResponse {
    pub status: u16,
    pub content_type: String,
    pub body: String,
}

/// The body of the response that reports `e`.
pub open spec fn response_body(e: AppError) -> Seq<char> {
    problem_json(
        PROBLEM_TYPE@,
        e.title_spec(),
        e.status_spec() as nat,
        PROBLEM_DETAIL@,
        PROBLEM_INSTANCE@,
    )
}

impl AppError {
    /// The response that reports this error: the variant's status code, the
    /// problem media type, and the problem document of the variant as body.
    pub fn into_response(self) -> (r: ProblemResponse)
        ensures
            r.status == self.status_spec(),
            r.content_type@ == PROBLEM_CONTENT_TYPE@,
            r.body@ == response_body(self),
    {
        let details = ProblemDetails::for_error(&self);
        let body = details.to_json();
        ProblemResponse {
            status: details.status,
            content_type: String::from_str(PROBLEM_CONTENT_TYPE),
            body,
        }
    }
}

/// The text that an `anyhow::Error` writes when displayed plainly (not with
/// `{:#}`): the message of its outermost error alone.
pub uninterp spec fn error_text(e: anyhow::Error) -> Seq<char>;

/// Relies on `anyhow::Error::msg`: the error it builds displays as the
/// message itself, since a plain display writes only the outermost error and
/// that error displays its message unchanged.
#[verifier::external_body]
fn error_from_message(m: &'static str) -> (r: anyhow::Error)
    ensures
        error_text(r) == m@,
{
    anyhow::Error::msg(m)
}

/// The handler of `GET /`: it always fails with an internal server error
/// whose cause displays as "Something went wrong". The greeting that would
/// follow is never reached.
pub fn handler() -> (r: Result<String, AppError>)
    ensures
        r matches Err(AppError::InternalServerError(cause)) && error_text(cause)
            == HANDLER_FAILURE@,
{
    let result: Result<(), anyhow::Error> = Err(error_from_message(HANDLER_FAILURE));
    match result {
        Ok(()) => {},
        Err(cause) => {
            return Err(AppError::from(cause));
        },
    }
    Ok(String::from_str(GREETING))
}

/// Handling the request twice fails twice in the same way: both results are
/// internal server errors whose causes display the same text, and so both
/// get the same response.
pub proof fn lemma_handler_repeatable(
    r1: Result<String, AppError>,
    r2: Result<String, AppError>,
)
    requires
        r1 matches Err(AppError::InternalServerError(c)) && error_text(c) == HANDLER_FAILURE@,
        r2 matches Err(AppError::InternalServerError(c)) && error_text(c) == HANDLER_FAILURE@,
    ensures
        r1 matches Err(AppError::InternalServerError(c1)) && r2 matches Err(
            AppError::InternalServerError(c2),
        ) && error_text(c1) == error_text(c2),
        response_body(r1->Err_0) == response_body(r2->Err_0),
        r1->Err_0.status_spec() == r2->Err_0.status_spec(),
{
}

/// The status code in the status line equals the `status` member of the
/// body: the body of every error's response is a problem document whose
/// status is the response's status code.
pub proof fn lemma_status_line_matches_body(e: AppError)
    ensures
        exists|problem_type: Seq<char>, title: Seq<char>, detail: Seq<char>, instance: Seq<char>|
            response_body(e) == #[trigger] problem_json(
                problem_type,
                title,
                e.status_spec() as nat,
                detail,
                instance,
            ),
{
    assert(response_body(e) == problem_json(
        PROBLEM_TYPE@,
        e.title_spec(),
        e.status_spec() as nat,
        PROBLEM_DETAIL@,
        PROBLEM_INSTANCE@,
    ));
}

/// Every body is a JSON object with exactly the members `type`, `title`,
/// `status`, `detail` and `instance`: four JSON string literals and the
/// status code as a decimal integer.
pub proof fn lemma_body_is_problem_document(e: AppError)
    ensures
        response_body(e) == "{\"type\":"@ + json_string_of(PROBLEM_TYPE@) + ",\"title\":"@
            + json_string_of(e.title_spec()) + ",\"status\":"@ + decimal(e.status_spec() as nat)
            + ",\"detail\":"@ + json_string_of(PROBLEM_DETAIL@) + ",\"instance\":"@
            + json_string_of(PROBLEM_INSTANCE@) + "}"@,
        is_json_string_literal(json_string_of(PROBLEM_TYPE@)),
        is_json_string_literal(json_string_of(e.title_spec())),
        is_json_string_literal(json_string_of(PROBLEM_DETAIL@)),
        is_json_string_literal(json_string_of(PROBLEM_INSTANCE@)),
{
    lemma_json_string_is_literal(PROBLEM_TYPE@);
    lemma_json_string_is_literal(e.title_spec());
    lemma_json_string_is_literal(PROBLEM_DETAIL@);
    lemma_json_string_is_literal(PROBLEM_INSTANCE@);
}

/// An internal server error is reported with status 500 and title
/// "Internal Server Error", whatever its cause.
pub proof fn lemma_internal_error_response(cause: anyhow::Error)
    ensures
        AppError::InternalServerError(cause).status_spec() == 500,
        AppError::InternalServerError(cause).title_spec() == INTERNAL_SERVER_ERROR_TITLE@,
        response_body(AppError::InternalServerError(cause)) == problem_json(
            PROBLEM_TYPE@,
            INTERNAL_SERVER_ERROR_TITLE@,
            500,
            PROBLEM_DETAIL@,
            PROBLEM_INSTANCE@,
        ),
{
}

/// The body of the response to `GET /`, byte for byte.
pub proof fn lemma_internal_error_body(cause: anyhow::Error)
    ensures
        response_body(AppError::InternalServerError(cause))
            == "{\"type\":\"https://example.com/probs/internal-server-error\",\"title\":\"Internal Server Error\",\"status\":500,\"detail\":\"An unexpected error occurred\",\"instance\":\"/\"}"@,
{
    reveal_strlit("https://example.com/probs/internal-server-error");
    reveal_strlit("Internal Server Error");
    reveal_strlit("An unexpected error occurred");
    reveal_strlit("/");
    reveal_strlit("{\"type\":");
    reveal_strlit(",\"title\":");
    reveal_strlit(",\"status\":");
    reveal_strlit(",\"detail\":");
    reveal_strlit(",\"instance\":");
    reveal_strlit("}");
    reveal_strlit("{\"type\":\"https://example.com/probs/internal-server-error\",\"title\":\"Internal Server Error\",\"status\":500,\"detail\":\"An unexpected error occurred\",\"instance\":\"/\"}");
    lemma_plain_json_string(PROBLEM_TYPE@);
    lemma_plain_json_string(INTERNAL_SERVER_ERROR_TITLE@);
    lemma_plain_json_string(PROBLEM_DETAIL@);
    lemma_plain_json_string(PROBLEM_INSTANCE@);
    assert(decimal(500) =~= seq!['5', '0', '0']) by {
        reveal_with_fuel(decimal, 3);
    }
    assert(response_body(AppError::InternalServerError(cause)) =~= "{\"type\":\"https://example.com/probs/internal-server-error\",\"title\":\"Internal Server Error\",\"status\":500,\"detail\":\"An unexpected error occurred\",\"instance\":\"/\"}"@);
}

/// A bad request is reported with status 400 and title "Bad Request",
/// whatever its message, the empty one included.
pub proof fn lemma_bad_request_response(message: String)
    ensures
        AppError::BadRequest(message).status_spec() == 400,
        AppError::BadRequest(message).title_spec() == BAD_REQUEST_TITLE@,
        response_body(AppError::BadRequest(message)) == problem_json(
            PROBLEM_TYPE@,
            BAD_REQUEST_TITLE@,
            400,
            PROBLEM_DETAIL@,
            PROBLEM_INSTANCE@,
        ),
{
}

/// The response depends on the error's variant alone: two errors of one
/// variant, whatever they carry, give the same status and byte-identical
/// bodies. So every request to the handler gets the same response.
pub proof fn lemma_response_depends_on_variant_only(a: AppError, b: AppError)
    requires
        (a is InternalServerError) == (b is InternalServerError),
    ensures
        a.status_spec() == b.status_spec(),
        response_body(a) == response_body(b),
{
}

} // verus!
