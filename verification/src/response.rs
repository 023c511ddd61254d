//! The JSON response envelope shared by every success and error response:
//! `{"status":"ok","data":..}` or `{"status":"error","error":{"error_id":..,"context":..}}`.

use vstd::prelude::*;

use crate::error::{context_json, ContextView, ErrorContext, ServirError, STATUS_OK};
use crate::json::{json_quote, json_string_literal};

verus! {

/// The JSON object an error body serializes to:
/// `{"error_id":"..","context":{..}}`.
pub open spec fn error_body_json(error_id: Seq<char>, ctx: ContextView) -> Seq<char> {
    "{\"error_id\":"@ + json_string_literal(error_id) + ",\"context\":"@ + context_json(ctx) + "}"@
}

/// Error payload carried inside [`ApiResponse::Error`]: the error it reports.
/// Its HTTP status, identifier and context are those of that error.
#[derive(Debug)]
pub struct ErrorBody {
    pub error: ServirError,
}

impl ErrorBody {
    /// The HTTP status line of the response that carries this body.
    pub fn status_code(&self) -> (s: u16)
        ensures
            s == self.error.spec_status(),
    {
        self.error.status_code()
    }

    /// The machine-readable error discriminant, e.g. `TOKEN_EXPIRED`.
    pub fn error_id(&self) -> (id: &'static str)
        ensures
            id@ == self.error.spec_error_id(),
    {
        self.error.error_id()
    }

    /// The structured context: the `"error"` description plus any identifier.
    pub fn context(&self) -> (ctx: ErrorContext)
        ensures
            self.error.has_context(ctx@),
    {
        self.error.context()
    }

    /// Serializes this body as `{"error_id":"..","context":{..}}`; the HTTP
    /// status is not part of it.
    pub fn to_json(&self) -> (s: String)
        ensures
            exists|ctx: ContextView|
                self.error.has_context(ctx) && s@ == error_body_json(self.error.spec_error_id(), ctx),
    {
        proof {
            reveal_strlit("{\"error_id\":");
            reveal_strlit(",\"context\":");
            reveal_strlit("}");
        }
        let ctx = self.error.context();
        let mut s = "{\"error_id\":".to_owned();
        s.append(json_quote(self.error.error_id()).as_str());
        s.append(",\"context\":");
        s.append(ctx.to_json().as_str());
        s.append("}");
        s
    }
}

/// Structured API response envelope, discriminated by `status`.
#[derive(Debug)]
pub enum ApiResponse<T> {
    Success { data: T },
    Error { error: ErrorBody },
}

impl<T> ApiResponse<T> {
    /// The HTTP status of this response: `200` for success, the error's
    /// status otherwise.
    pub open spec fn spec_status(&self) -> u16 {
        match self {
            ApiResponse::Success { .. } => STATUS_OK,
            ApiResponse::Error { error } => error.error.spec_status(),
        }
    }

    /// A successful response carrying `data`.
    pub fn ok(data: T) -> (r: ApiResponse<T>)
        ensures
            r == (ApiResponse::Success::<T> { data }),
    {
        ApiResponse::Success { data }
    }

    /// An error response reporting `err`.
    pub fn error(err: ServirError) -> (r: ApiResponse<T>)
        ensures
            r == (ApiResponse::Error::<T> { error: ErrorBody { error: err } }),
    {
        ApiResponse::Error { error: ErrorBody { error: err } }
    }

    /// Transforms the data of a successful response; an error response is
    /// passed through unchanged.
    pub fn map<U, F: FnOnce(T) -> U>(self, f: F) -> (r: ApiResponse<U>)
        requires
            self matches ApiResponse::Success { data } ==> f.requires((data,)),
        ensures
            match self {
                ApiResponse::Success { data } => r matches ApiResponse::Success { data: d } && f.ensures(
                    (data,),
                    d,
                ),
                ApiResponse::Error { error } => r == (ApiResponse::Error::<U> { error }),
            },
    {
        match self {
            ApiResponse::Success { data } => ApiResponse::Success { data: f(data) },
            ApiResponse::Error { error } => ApiResponse::Error { error },
        }
    }

    /// The HTTP status of this response.
    pub fn status_code(&self) -> (s: u16)
        ensures
            s == self.spec_status(),
    {
        match self {
            ApiResponse::Success { .. } => STATUS_OK,
            ApiResponse::Error { error } => error.status_code(),
        }
    }
}

/// Blanket conversion from [`ServirError`].
impl<T> From<ServirError> for ApiResponse<T> {
    fn from(err: ServirError) -> (r: ApiResponse<T>) {
        ApiResponse::error(err)
    }
}

impl<T> vstd::std_specs::convert::FromSpecImpl<ServirError> for ApiResponse<T> {
    open spec fn obeys_from_spec() -> bool {
        true
    }

    open spec fn from_spec(err: ServirError) -> ApiResponse<T> {
        ApiResponse::Error { error: ErrorBody { error: err } }
    }
}

/// Collapses a `Result<T, ServirError>` into an `ApiResponse<T>`.
impl<T> From<Result<T, ServirError>> for ApiResponse<T> {
    fn from(result: Result<T, ServirError>) -> (r: ApiResponse<T>) {
        match result {
            Ok(data) => ApiResponse::ok(data),
            Err(err) => ApiResponse::error(err),
        }
    }
}

impl<T> vstd::std_specs::convert::FromSpecImpl<Result<T, ServirError>> for ApiResponse<T> {
    open spec fn obeys_from_spec() -> bool {
        true
    }

    open spec fn from_spec(result: Result<T, ServirError>) -> ApiResponse<T> {
        match result {
            Ok(data) => ApiResponse::Success { data },
            Err(err) => ApiResponse::Error { error: ErrorBody { error: err } },
        }
    }
}

/// An error response carries the status of the error it reports, and a
/// success response is `200 OK`.
pub proof fn response_status_follows_outcome<T>(data: T, err: ServirError)
    ensures
        (ApiResponse::Success::<T> { data }).spec_status() == STATUS_OK,
        (ApiResponse::Error::<T> { error: ErrorBody { error: err } }).spec_status()
            == err.spec_status(),
{
}

} // verus!
