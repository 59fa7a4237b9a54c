//! What the boundary sends for a `TfError`: a status code and a JSON body that
//! show the external part. The internal part is left for the log.

use crate::twoface::TfError;
use vstd::prelude::*;

verus! {

/// The response for a failed request, as plain values.
#[derive(Debug, PartialEq, Eq)]
pub struct ErrorResponse {
    pub status: u16,
    pub content_type: &'static str,
    pub body: String,
}

/// The JSON string literal for `s`, quotes included, as
/// `serde_json::to_string` writes it.
pub uninterp spec fn json_string(s: Seq<char>) -> Seq<char>;

/// Writes `s` as a JSON string literal with `serde_json::to_string`: the text
/// between double quotes, with the characters escaped that JSON wants
/// escaped. The literal depends on `s` alone. A failure of the serialiser
/// comes back as `None`.
#[verifier::external_body]
fn to_json_string(s: &str) -> (r: Option<String>)
    ensures
        r matches Some(json) ==> json@ == json_string(s@),
{
    serde_json::to_string(s).ok()
}

/// The body sent when the error text could not be written as JSON.
pub open spec fn fallback_body() -> Seq<char> {
    "{\"error\": \"ServerError: internal server error\"}"@
}

/// The object with the one field `error` whose value is the literal `json`.
pub open spec fn framed(json: Seq<char>) -> Seq<char> {
    "{\"error\":"@ + json + "}"@
}

/// The body for an error text whose JSON literal is `json`, or the fallback
/// body where there is none.
pub open spec fn body_of(json: Option<Seq<char>>) -> Seq<char> {
    match json {
        Some(literal) => framed(literal),
        None => fallback_body(),
    }
}

/// Frames a JSON string literal as the body `{"error":<literal>}`. Without a
/// literal the body is a fixed server error.
pub fn error_body(json: Option<String>) -> (body: String)
    ensures
        body@ == body_of(
            match json {
                Some(literal) => Some(literal@),
                None => None,
            },
        ),
{
    match json {
        Some(literal) => {
            let mut body = "{\"error\":".to_owned();
            body.append(literal.as_str());
            body.append("}");
            body
        },
        None => "{\"error\": \"ServerError: internal server error\"}".to_owned(),
    }
}

impl TfError {
    /// The status code of the error's cause.
    pub fn status_code(&self) -> (code: u16)
        ensures
            code == self.external.cause.status(),
    {
        self.external.cause.status_code()
    }

    /// Builds the response for the error: the status of its cause and a JSON
    /// object whose one field, `error`, holds the rendered external part.
    /// Nothing of the internal part goes into the response.
    pub fn error_response(&self) -> (response: ErrorResponse)
        ensures
            response.status == self.external.cause.status(),
            response.content_type@ == "application/json"@,
            response.body@ == framed(json_string(self.rendered())) || response.body@
                == fallback_body(),
    {
        let rendered = self.to_string();
        let json = to_json_string(rendered.as_str());
        ErrorResponse {
            status: self.status_code(),
            content_type: "application/json",
            body: error_body(json),
        }
    }
}

} // verus!
