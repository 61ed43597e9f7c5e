//! Errors answered to HTTP clients, each with its status code.
use vstd::prelude::*;

verus! {

/// An error answered to a client; the text is shown to it.
#[derive(Debug, Clone)]
pub enum CoreError {
    /// 401
    Unauthorized(String),
    /// 400
    BadRequest(String),
    /// 403
    Forbidden(String),
    /// 409
    Conflict(String),
    /// 413
    PayloadTooLarge(String),
    /// 415
    UnsupportedMediaType(String),
    /// 422
    UnprocessableEntity(String),
    /// 500
    InternalServerError(String),
}

/// The HTTP status code of each error.
pub open spec fn status_code_of(e: CoreError) -> u16 {
    match e {
        CoreError::Unauthorized(_) => 401,
        CoreError::BadRequest(_) => 400,
        CoreError::Forbidden(_) => 403,
        CoreError::Conflict(_) => 409,
        CoreError::PayloadTooLarge(_) => 413,
        CoreError::UnsupportedMediaType(_) => 415,
        CoreError::UnprocessableEntity(_) => 422,
        CoreError::InternalServerError(_) => 500,
    }
}

/// The text an error carries.
pub open spec fn error_text(e: CoreError) -> Seq<char> {
    match e {
        CoreError::Unauthorized(m) => m@,
        CoreError::BadRequest(m) => m@,
        CoreError::Forbidden(m) => m@,
        CoreError::Conflict(m) => m@,
        CoreError::PayloadTooLarge(m) => m@,
        CoreError::UnsupportedMediaType(m) => m@,
        CoreError::UnprocessableEntity(m) => m@,
        CoreError::InternalServerError(m) => m@,
    }
}

/// What `serde_json` writes for a JSON string holding `s`: `s` quoted, with the
/// characters JSON requires escaped.
pub uninterp spec fn json_string_literal(s: Seq<char>) -> Seq<char>;

/// The JSON body of an error response: an object whose `error` field is the text.
pub open spec fn error_body(e: CoreError) -> Seq<char> {
    "{\"error\":"@ + json_string_literal(error_text(e)) + "}"@
}

/// Writes `s` as a JSON string with `serde_json` (the compact `Display` of
/// `Value::String`). The contract claims that the result depends on `s` alone
/// (named `json_string_literal`), not how the escaping goes.
#[verifier::external_body]
fn json_quote(s: &str) -> (r: String)
    ensures
        r@ == json_string_literal(s@),
{
    serde_json::Value::String(s.to_string()).to_string()
}

impl CoreError {
    pub fn status_code(&self) -> (r: u16)
        ensures
            r == status_code_of(*self),
    {
        match self {
            CoreError::Unauthorized(_) => 401,
            CoreError::BadRequest(_) => 400,
            CoreError::Forbidden(_) => 403,
            CoreError::Conflict(_) => 409,
            CoreError::PayloadTooLarge(_) => 413,
            CoreError::UnsupportedMediaType(_) => 415,
            CoreError::UnprocessableEntity(_) => 422,
            CoreError::InternalServerError(_) => 500,
        }
    }

    pub fn text(&self) -> (r: &String)
        ensures
            r@ == error_text(*self),
    {
        match self {
            CoreError::Unauthorized(m) => m,
            CoreError::BadRequest(m) => m,
            CoreError::Forbidden(m) => m,
            CoreError::Conflict(m) => m,
            CoreError::PayloadTooLarge(m) => m,
            CoreError::UnsupportedMediaType(m) => m,
            CoreError::UnprocessableEntity(m) => m,
            CoreError::InternalServerError(m) => m,
        }
    }

    /// The body of the response: `{"error":<text as a JSON string>}`.
    pub fn response_body(&self) -> (r: String)
        ensures
            r@ == error_body(*self),
    {
        let quoted = json_quote(self.text().as_str());
        let mut body = "{\"error\":".to_string();
        body.append(quoted.as_str());
        body.append("}");
        body
    }

    /// The status code and body of the HTTP response answering this error.
    pub fn into_response_parts(self) -> (r: (u16, String))
        ensures
            r.0 == status_code_of(self),
            r.1@ == error_body(self),
    {
        let status = self.status_code();
        let body = self.response_body();
        (status, body)
    }
}

/// The status code of every error: 401 unauthorized, 400 bad request, 403
/// forbidden, 409 conflict, 413 payload too large, 415 unsupported media type,
/// 422 unprocessable entity, 500 internal server error.
pub proof fn lemma_status_codes(e: CoreError)
    ensures
        e is Unauthorized ==> status_code_of(e) == 401,
        e is BadRequest ==> status_code_of(e) == 400,
        e is Forbidden ==> status_code_of(e) == 403,
        e is Conflict ==> status_code_of(e) == 409,
        e is PayloadTooLarge ==> status_code_of(e) == 413,
        e is UnsupportedMediaType ==> status_code_of(e) == 415,
        e is UnprocessableEntity ==> status_code_of(e) == 422,
        e is InternalServerError ==> status_code_of(e) == 500,
{
}

} // verus!
