//! The "problem details" record that describes a failed request, and its
//! JSON text.
use vstd::prelude::*;

use crate::error::AppError;
use crate::json::{decimal, json_string, json_string_of, push_decimal};

verus! {

/// The category URI that every problem document carries.
pub const PROBLEM_TYPE: &'static str = "https://example.com/probs/internal-server-error";

/// The explanation that every problem document carries.
pub const PROBLEM_DETAIL: &'static str = "An unexpected error occurred";

/// The request instance that every problem document names.
pub const PROBLEM_INSTANCE: &'static str = "/";

/// A description of one failed request.
pub struct ProblemDetails {
    /// Stable identifier of the error category (written as `type`).
    pub problem_type: String,
    /// Human-readable summary of the error variant.
    pub title: String,
    /// The HTTP status code that the response carries.
    pub status: u16,
    /// Explanation of this occurrence.
    pub detail: String,
    /// The request path that failed.
    pub instance: String,
}

/// The JSON object with the five members `type`, `title`, `status`, `detail`
/// and `instance`, in that order, with no white space: string members as
/// JSON string literals, the status as a decimal integer.
pub open spec fn problem_json(
    problem_type: Seq<char>,
    title: Seq<char>,
    status: nat,
    detail: Seq<char>,
    instance: Seq<char>,
) -> Seq<char> {
    "{\"type\":"@ + json_string_of(problem_type) + ",\"title\":"@ + json_string_of(title)
        + ",\"status\":"@ + decimal(status) + ",\"detail\":"@ + json_string_of(detail)
        + ",\"instance\":"@ + json_string_of(instance) + "}"@
}

impl ProblemDetails {
    /// The JSON text of the record.
    pub open spec fn json_spec(&self) -> Seq<char> {
        problem_json(
            self.problem_type@,
            self.title@,
            self.status as nat,
            self.detail@,
            self.instance@,
        )
    }

    /// The record that describes `e`: its status code and display string,
    /// with the fixed category, explanation and instance.
    pub fn for_error(e: &AppError) -> (r: ProblemDetails)
        ensures
            r.problem_type@ == PROBLEM_TYPE@,
            r.title@ == e.title_spec(),
            r.status == e.status_spec(),
            r.detail@ == PROBLEM_DETAIL@,
            r.instance@ == PROBLEM_INSTANCE@,
    {
        ProblemDetails {
            problem_type: String::from_str(PROBLEM_TYPE),
            title: e.to_string(),
            status: e.status_code(),
            detail: String::from_str(PROBLEM_DETAIL),
            instance: String::from_str(PROBLEM_INSTANCE),
        }
    }

    /// Writes the record as a JSON object.
    pub fn to_json(&self) -> (r: String)
        ensures
            r@ == self.json_spec(),
    {
        let mut out = String::from_str("{\"type\":");
        out.append(json_string(self.problem_type.as_str()).as_str());
        out.append(",\"title\":");
        out.append(json_string(self.title.as_str()).as_str());
        out.append(",\"status\":");
        push_decimal(&mut out, self.status);
        out.append(",\"detail\":");
        out.append(json_string(self.detail.as_str()).as_str());
        out.append(",\"instance\":");
        out.append(json_string(self.instance.as_str()).as_str());
        out.append("}");
        out
    }
}

} // verus!
