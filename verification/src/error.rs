//! The error mapper: the two HTTP-facing error categories, their rendering
//! as replies, and the mapping of upstream failures onto them.

use crate::invoke::FailureOrigin;
use crate::respond::{HttpReply, ReplyBody, is_error_reply};
use crate::text::{contains_chars, str_contains};
use vstd::prelude::*;
use vstd::string::*;

verus! {

/// A request-terminating error: client input faults map to 400, everything
/// that went wrong on the server side to 500. The message is returned
/// verbatim as the plain-text response body.
pub enum ApiError {
    BadRequest(String),
    InternalServerError(String),
}

impl ApiError {
    /// The HTTP status the variant stands for.
    pub open spec fn spec_status(self) -> u16 {
        match self {
            ApiError::BadRequest(_) => 400,
            ApiError::InternalServerError(_) => 500,
        }
    }

    /// The carried message.
    pub open spec fn spec_message(self) -> Seq<char> {
        match self {
            ApiError::BadRequest(m) => m@,
            ApiError::InternalServerError(m) => m@,
        }
    }

    /// Renders the error as a plain-text reply: its status, its message as
    /// the body, no extra headers.
    pub fn into_response(self) -> (r: HttpReply)
        ensures
            is_error_reply(r, self.spec_status(), self.spec_message()),
    {
        match self {
            ApiError::BadRequest(m) => HttpReply {
                status: 400,
                content_type: None,
                content_disposition: None,
                body: ReplyBody::Text(m),
            },
            ApiError::InternalServerError(m) => HttpReply {
                status: 500,
                content_type: None,
                content_disposition: None,
                body: ReplyBody::Text(m),
            },
        }
    }
}

/// Maps a multipart parse failure to a client error. A missing-boundary
/// failure is recognized by the parser's diagnostic and replaced with a
/// clearer message; any other parse failure is passed through verbatim.
pub fn map_multipart_error(message: String) -> (e: ApiError)
    ensures
        e is BadRequest,
        contains_chars(message@, "No boundary found"@) ==> e.spec_message()
            == "multipart/form-data request requires a boundary"@,
        !contains_chars(message@, "No boundary found"@) ==> e.spec_message() == message@,
{
    if str_contains(message.as_str(), "No boundary found") {
        ApiError::BadRequest(String::from_str("multipart/form-data request requires a boundary"))
    } else {
        ApiError::BadRequest(message)
    }
}

/// A nonzero exit surfaces the tool's own words: the error message built
/// for captured standard-error text always contains that text.
pub proof fn lemma_failure_message_contains_stderr(stderr: Seq<char>)
    ensures
        contains_chars("Conversion failed: "@ + stderr, stderr),
{
    crate::text::lemma_concat_contains_suffix("Conversion failed: "@, stderr);
}

/// Maps a conversion failure to the server error whose message the caller
/// sees: the launch error and the tool's captured standard error keep their
/// diagnostic behind a fixed prefix, a missing output keeps its message as
/// it stands.
pub fn failure_to_error(origin: FailureOrigin, message: String) -> (e: ApiError)
    ensures
        e is InternalServerError,
        origin == FailureOrigin::ProcessLaunch ==> e.spec_message() == "Failed to execute dwg2dxf: "@
            + message@,
        origin == FailureOrigin::NonzeroExit ==> e.spec_message() == "Conversion failed: "@
            + message@,
        origin == FailureOrigin::MissingOutput ==> e.spec_message() == message@,
{
    match origin {
        FailureOrigin::ProcessLaunch => ApiError::InternalServerError(
            String::from_str("Failed to execute dwg2dxf: ").concat(message.as_str()),
        ),
        FailureOrigin::NonzeroExit => ApiError::InternalServerError(
            String::from_str("Conversion failed: ").concat(message.as_str()),
        ),
        FailureOrigin::MissingOutput => ApiError::InternalServerError(message),
    }
}

} // verus!
