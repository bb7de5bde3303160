//! What an API call answers: its status code and the body that carries its value
//! or its error, and the errors of a request that cannot be read.
use vstd::prelude::*;
use crate::error::{spec_message, spec_status_code, AppError};

verus! {

/// The body of every answer of the API: `some` holds the value, `err` the text of
/// the error. The answer says `ok` in both cases.
#[derive(Clone, Debug)]
pub struct WebResult<T> {
    pub ok: bool,
    pub some: Option<T>,
    pub err: Option<String>,
}

/// An answer being built: the value or the error, and the HTTP status code.
#[derive(Debug)]
pub struct Return<T> {
    pub result: Result<T, AppError>,
    pub status_code: u16,
}

impl<T> Return<T> {
    /// An answer with this value, and the status 200.
    pub fn new(value: T) -> (r: Return<T>)
        ensures
            r.result == Ok::<T, AppError>(value),
            r.status_code == 200,
    {
        Return { result: Ok(value), status_code: 200 }
    }

    /// An answer with this error, and the status code of the error.
    pub fn form_error(e: AppError) -> (r: Return<String>)
        ensures
            r.status_code == spec_status_code(e),
            r.result == Err::<String, AppError>(e),
    {
        let status_code = e.status_code();
        Return { status_code, result: Err(e) }
    }

    /// The same answer with another status code.
    pub fn status(self, status_code: u16) -> (r: Return<T>)
        ensures
            r.result == self.result,
            r.status_code == status_code,
    {
        Return { status_code, ..self }
    }

    /// The body of the answer.
    pub fn body(self) -> (b: WebResult<T>)
        ensures
            b.ok,
            match self.result {
                Ok(value) => b.some == Some(value) && b.err is None,
                Err(e) => b.some is None && b.err is Some && b.err->0@ == spec_message(e),
            },
    {
        match self.result {
            Ok(value) => WebResult { ok: true, some: Some(value), err: None },
            Err(e) => WebResult { ok: true, some: None, err: Some(e.message()) },
        }
    }
}

/// The query string of a URI, or the empty text where it has none.
pub fn query_text(query: Option<&str>) -> (q: &str)
    ensures
        q@ == match query {
            Some(s) => s@,
            None => ""@,
        },
{
    match query {
        Some(s) => s,
        None => "",
    }
}

/// The error of a query that does not parse: it names the URI.
pub fn query_error(uri: &str) -> (e: AppError)
    ensures
        e matches AppError::BadRequest(m) && m@ == "Failed to parse the query in the URI ("@ + uri@ + ")"@,
{
    let mut m = String::from_str("Failed to parse the query in the URI (");
    m.append(uri);
    m.append(")");
    AppError::BadRequest(m)
}

/// The error of a request body that cannot be read.
pub fn body_read_error() -> (e: AppError)
    ensures
        e matches AppError::BadRequest(m) && m@ == "Failed to read the request body"@,
{
    AppError::BadRequest(String::from_str("Failed to read the request body"))
}

/// The error of a request body that does not parse.
pub fn body_parse_error() -> (e: AppError)
    ensures
        e matches AppError::BadRequest(m) && m@ == "Failed to parse the request body"@,
{
    AppError::BadRequest(String::from_str("Failed to parse the request body"))
}

} // verus!
