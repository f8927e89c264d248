//! Errors of the HTTP API and the response each one is answered with.
use vstd::prelude::*;
use vstd::string::StringExecFns;

verus! {

/// HTTP status codes the API answers with.
pub const STATUS_OK: u16 = 200;
pub const STATUS_BAD_REQUEST: u16 = 400;
pub const STATUS_NOT_FOUND: u16 = 404;
pub const STATUS_UNSUPPORTED_MEDIA_TYPE: u16 = 415;
pub const STATUS_INTERNAL_SERVER_ERROR: u16 = 500;

/// A failed request. The variants that wrap an error of the database, the file
/// system, a header value or a temporary file carry that error's text.
#[derive(Debug, PartialEq, Eq)]
pub enum APIError {
    InternalError,
    RequestError,
    NotFound,
    UnsupportedMediaType,
    SqlError(String),
    FsError(String),
    HeaderError(String),
    PersistBinaryError(String),
}

/// The body of an error response: `{"error": ...}`.
#[derive(Debug, PartialEq, Eq)]
pub struct ErrorBody {
    pub error: String,
}

impl ErrorBody {
    pub fn new(error: String) -> (r: Self)
        ensures
            r.error == error,
    {
        ErrorBody { error }
    }
}

/// The status code an error is answered with.
pub open spec fn error_status(e: APIError) -> u16 {
    match e {
        APIError::InternalError => STATUS_INTERNAL_SERVER_ERROR,
        APIError::RequestError => STATUS_BAD_REQUEST,
        APIError::NotFound => STATUS_NOT_FOUND,
        APIError::UnsupportedMediaType => STATUS_UNSUPPORTED_MEDIA_TYPE,
        APIError::SqlError(_) => STATUS_INTERNAL_SERVER_ERROR,
        APIError::FsError(_) => STATUS_INTERNAL_SERVER_ERROR,
        APIError::HeaderError(_) => STATUS_INTERNAL_SERVER_ERROR,
        APIError::PersistBinaryError(_) => STATUS_INTERNAL_SERVER_ERROR,
    }
}

/// The message an error response carries.
pub open spec fn error_message(e: APIError) -> Seq<char> {
    match e {
        APIError::InternalError => "Internal Error"@,
        APIError::RequestError => "Bad Request"@,
        APIError::NotFound => "Not found"@,
        APIError::UnsupportedMediaType =>
            "Unsupported media type. Supported types are 'application/octet-stream' and 'application/json'"@,
        APIError::HeaderError(d) => "Bad header: "@ + d@,
        APIError::SqlError(d) => "Database Error: "@ + d@,
        APIError::FsError(d) => "Filesystem Error: "@ + d@,
        APIError::PersistBinaryError(d) => "Persisting temporary file error: "@ + d@,
    }
}

/// The short description of an error (its `Display` text).
pub open spec fn error_description(e: APIError) -> Seq<char> {
    match e {
        APIError::InternalError => "Internal Error"@,
        APIError::RequestError => "Request Error"@,
        APIError::NotFound => "Not found"@,
        APIError::UnsupportedMediaType => "Unsupported content type"@,
        APIError::SqlError(_) => "Database error"@,
        APIError::FsError(_) => "Filesystem error"@,
        APIError::HeaderError(_) => "Bad header value"@,
        APIError::PersistBinaryError(_) => "Bad header value"@,
    }
}

fn prefixed(prefix: &str, detail: &String) -> (r: String)
    ensures
        r@ == prefix@ + detail@,
{
    prefix.to_owned().concat(detail.as_str())
}

impl APIError {
    /// The short description of the error.
    pub fn to_string(&self) -> (r: String)
        ensures
            r@ == error_description(*self),
    {
        match self {
            APIError::InternalError => "Internal Error".to_owned(),
            APIError::RequestError => "Request Error".to_owned(),
            APIError::NotFound => "Not found".to_owned(),
            APIError::UnsupportedMediaType => "Unsupported content type".to_owned(),
            APIError::SqlError(_) => "Database error".to_owned(),
            APIError::FsError(_) => "Filesystem error".to_owned(),
            APIError::HeaderError(_) => "Bad header value".to_owned(),
            APIError::PersistBinaryError(_) => "Bad header value".to_owned(),
        }
    }

    /// The status code and body the error is answered with.
    pub fn into_response(self) -> (r: (u16, ErrorBody))
        ensures
            r.0 == error_status(self),
            r.1.error@ == error_message(self),
    {
        let (status_code, error) = match &self {
            APIError::InternalError => (STATUS_INTERNAL_SERVER_ERROR, "Internal Error".to_owned()),
            APIError::RequestError => (STATUS_BAD_REQUEST, "Bad Request".to_owned()),
            APIError::NotFound => (STATUS_NOT_FOUND, "Not found".to_owned()),
            APIError::UnsupportedMediaType => (
                STATUS_UNSUPPORTED_MEDIA_TYPE,
                "Unsupported media type. Supported types are 'application/octet-stream' and 'application/json'".to_owned(),
            ),
            APIError::HeaderError(d) => (STATUS_INTERNAL_SERVER_ERROR, prefixed("Bad header: ", d)),
            APIError::SqlError(d) => (STATUS_INTERNAL_SERVER_ERROR, prefixed("Database Error: ", d)),
            APIError::FsError(d) => (STATUS_INTERNAL_SERVER_ERROR, prefixed("Filesystem Error: ", d)),
            APIError::PersistBinaryError(d) => (
                STATUS_INTERNAL_SERVER_ERROR,
                prefixed("Persisting temporary file error: ", d),
            ),
        };
        (status_code, ErrorBody::new(error))
    }
}


/// The answer to a lookup: the row that was found, `NotFound` where there is
/// none, and a database error where the query failed.
pub open spec fn lookup_result<T>(found: Result<Option<T>, String>) -> Result<T, APIError> {
    match found {
        Ok(Some(row)) => Ok(row),
        Ok(None) => Err(APIError::NotFound),
        Err(m) => Err(APIError::SqlError(m)),
    }
}

/// Answers a lookup from the outcome of its query.
pub fn lookup<T>(found: Result<Option<T>, String>) -> (r: Result<T, APIError>)
    ensures
        r == lookup_result(found),
{
    match found {
        Ok(Some(row)) => Ok(row),
        Ok(None) => Err(APIError::NotFound),
        Err(m) => Err(APIError::SqlError(m)),
    }
}

/// Whether a step of a request's work was done and succeeded.
pub open spec fn step_succeeded(outcome: Option<Result<(), String>>) -> bool {
    outcome matches Some(Ok(_))
}

/// Every error is answered with a client error (4xx) or a server error (5xx);
/// only the errors that wrap a failure of the server's own machinery, and the
/// internal error, are answered with 500.
pub proof fn law_errors_answer_with_error_status(e: APIError)
    ensures
        400 <= error_status(e) < 600,
        error_status(e) == STATUS_INTERNAL_SERVER_ERROR <==> (e is InternalError || e is SqlError
            || e is FsError || e is HeaderError || e is PersistBinaryError),
{
}

/// A lookup is answered with the row it found; `NotFound` only where it found
/// none; a database error, carrying the query's error text, only where the
/// query failed.
pub proof fn law_lookup_answers_with_the_found_row<T>(found: Result<Option<T>, String>)
    ensures
        match found {
            Ok(Some(row)) => lookup_result(found) == Ok::<T, APIError>(row),
            Ok(None) => lookup_result(found) == Err::<T, APIError>(APIError::NotFound),
            Err(m) => lookup_result(found) == Err::<T, APIError>(APIError::SqlError(m)),
        },
{
}

/// Client errors get their own codes, and the errors that wrap another error
/// end their message with that error's text.
pub proof fn law_error_statuses_and_details(d: String)
    ensures
        error_status(APIError::NotFound) == 404,
        error_status(APIError::RequestError) == 400,
        error_status(APIError::UnsupportedMediaType) == 415,
        error_message(APIError::SqlError(d)).len() >= d@.len(),
        error_message(APIError::SqlError(d)).subrange(
            error_message(APIError::SqlError(d)).len() - d@.len(),
            error_message(APIError::SqlError(d)).len() as int,
        ) == d@,
        error_message(APIError::FsError(d)).subrange(
            error_message(APIError::FsError(d)).len() - d@.len(),
            error_message(APIError::FsError(d)).len() as int,
        ) == d@,
        error_message(APIError::HeaderError(d)).subrange(
            error_message(APIError::HeaderError(d)).len() - d@.len(),
            error_message(APIError::HeaderError(d)).len() as int,
        ) == d@,
        error_message(APIError::PersistBinaryError(d)).subrange(
            error_message(APIError::PersistBinaryError(d)).len() - d@.len(),
            error_message(APIError::PersistBinaryError(d)).len() as int,
        ) == d@,
{
    let m1 = error_message(APIError::SqlError(d));
    assert(m1.subrange(m1.len() - d@.len(), m1.len() as int) =~= d@);
    let m2 = error_message(APIError::FsError(d));
    assert(m2.subrange(m2.len() - d@.len(), m2.len() as int) =~= d@);
    let m3 = error_message(APIError::HeaderError(d));
    assert(m3.subrange(m3.len() - d@.len(), m3.len() as int) =~= d@);
    let m4 = error_message(APIError::PersistBinaryError(d));
    assert(m4.subrange(m4.len() - d@.len(), m4.len() as int) =~= d@);
}

} // verus!
