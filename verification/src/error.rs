//! Errors of the server, the HTTP status and code that each is answered with, and
//! how each is logged.
use vstd::prelude::*;

verus! {

/// A validation that failed, with the message of the failed rule.
#[derive(Clone, Copy, Debug, PartialEq, Eq)]
pub struct ValidationFailed(pub &'static str);

/// An error of the server. Errors of outside libraries are held by their message.
#[derive(Debug)]
pub enum AppError {
    /// An unexpected database error.
    Database { source: String },
    /// An unexpected cache database error.
    Cache { source: String },
    /// Authentication failed, for the reason given.
    Unauthenticated(String),
    /// The named thing was not found.
    NotFound(&'static str),
    /// Permission denied.
    NoPermission,
    /// A validation failed.
    Validation(ValidationFailed),
    /// An unexpected error, with what is known of it.
    Unexpected(String),
    /// An unexpected serialize error.
    Serialize(String),
    /// The request was malformed.
    BadRequest(String),
    /// The method is not allowed.
    MethodNotAllowed,
    /// The named thing already exists.
    Conflict(String),
    /// An I/O error of the HTTP layer.
    Hyper { source: String },
    /// An I/O error of the runtime.
    TokioIo { source: String },
}

/// The HTTP status code of an error.
pub open spec fn spec_status_code(e: AppError) -> u16 {
    match e {
        AppError::Unauthenticated(_) => 401,
        AppError::NotFound(_) => 404,
        AppError::NoPermission => 403,
        AppError::Validation(_) => 400,
        AppError::BadRequest(_) => 400,
        AppError::MethodNotAllowed => 405,
        AppError::Conflict(_) => 409,
        _ => 500,
    }
}

/// The error code of an error, as clients see it.
pub open spec fn spec_error_code(e: AppError) -> &'static str {
    match e {
        AppError::Unauthenticated(_) => "UNAUTHENTICATED",
        AppError::NotFound(_) => "NOT_FOUND",
        AppError::NoPermission => "NO_PERMISSION",
        AppError::Validation(_) => "VALIDATION_FAIL",
        AppError::BadRequest(_) => "BAD_REQUEST",
        AppError::MethodNotAllowed => "METHOD_NOT_ALLOWED",
        AppError::Conflict(_) => "CONFLICT",
        _ => "UNEXPECTED",
    }
}

/// The error code and the status code of an error agree: a client sees
/// `UNEXPECTED` exactly for a server error (500), and a bad request (400) is a
/// failed validation or a malformed request; each other code has its own status.
pub proof fn lemma_codes_match_statuses(e: AppError)
    ensures
        (spec_error_code(e)@ == "UNEXPECTED"@) == (spec_status_code(e) == 500),
        (spec_status_code(e) == 400) == (spec_error_code(e)@ == "VALIDATION_FAIL"@
            || spec_error_code(e)@ == "BAD_REQUEST"@),
        (spec_error_code(e)@ == "NOT_FOUND"@) == (spec_status_code(e) == 404),
        (spec_error_code(e)@ == "UNAUTHENTICATED"@) == (spec_status_code(e) == 401),
        (spec_error_code(e)@ == "NO_PERMISSION"@) == (spec_status_code(e) == 403),
        (spec_error_code(e)@ == "METHOD_NOT_ALLOWED"@) == (spec_status_code(e) == 405),
        (spec_error_code(e)@ == "CONFLICT"@) == (spec_status_code(e) == 409),
{
    reveal_strlit("UNEXPECTED");
    reveal_strlit("VALIDATION_FAIL");
    reveal_strlit("BAD_REQUEST");
    reveal_strlit("NOT_FOUND");
    reveal_strlit("UNAUTHENTICATED");
    reveal_strlit("NO_PERMISSION");
    reveal_strlit("METHOD_NOT_ALLOWED");
    reveal_strlit("CONFLICT");
    let u = "UNEXPECTED"@;
    let v = "VALIDATION_FAIL"@;
    let b = "BAD_REQUEST"@;
    let n = "NOT_FOUND"@;
    let a = "UNAUTHENTICATED"@;
    let p = "NO_PERMISSION"@;
    let m = "METHOD_NOT_ALLOWED"@;
    let c = "CONFLICT"@;
    assert(u[0] != v[0] && u[0] != b[0] && u[0] != n[0] && u[0] != p[0] && u[0] != m[0] && u[0] != c[0]);
    assert(u.len() != a.len());
    assert(v[0] != b[0] && v[0] != n[0] && v[0] != a[0] && v[0] != p[0] && v[0] != m[0] && v[0] != c[0]);
    assert(b[0] != n[0] && b[0] != a[0] && b[0] != p[0] && b[0] != m[0] && b[0] != c[0]);
    assert(n[2] != p[2] && n[0] != a[0] && n[0] != m[0] && n[0] != c[0]);
    assert(a[0] != p[0] && a[0] != m[0] && a[0] != c[0]);
    assert(p[0] != m[0] && p[0] != c[0]);
    assert(m[0] != c[0]);
}

/// The text of an error, as the client reads it in an error response.
pub open spec fn spec_message(e: AppError) -> Seq<char> {
    match e {
        AppError::Database { source } => "An unexpected database error occurred: "@ + source@,
        AppError::Cache { source } => "An unexpected cache database error occurred: "@ + source@,
        AppError::Unauthenticated(_) => "Authentication failed"@,
        AppError::NotFound(table) => "\""@ + table@ + "\" not found"@,
        AppError::NoPermission => "Permission denied"@,
        AppError::Validation(v) => "Validation failed: "@ + v.0@,
        AppError::Unexpected(_) => "An unexpected error occurred"@,
        AppError::Serialize(_) => "An unexpected serialize error occurred"@,
        AppError::BadRequest(m) => "Wrong request format: "@ + m@,
        AppError::MethodNotAllowed => "Method not allowed"@,
        AppError::Conflict(table) => "\""@ + table@ + "\" already exists"@,
        AppError::Hyper { .. } => "An I/O error occurred"@,
        AppError::TokioIo { .. } => "An I/O error occurred"@,
    }
}

fn joined(head: &str, tail: &str) -> (r: String)
    ensures
        r@ == head@ + tail@,
{
    let mut r = String::from_str(head);
    r.append(tail);
    r
}

fn quoted(name: &str, tail: &str) -> (r: String)
    ensures
        r@ == "\""@ + name@ + tail@,
{
    let mut r = String::from_str("\"");
    r.append(name);
    r.append(tail);
    r
}

/// How an error is logged.
#[derive(Clone, Copy, Debug, PartialEq, Eq)]
pub enum LogLevel {
    /// Logged at debug level.
    Debug,
    /// Logged at info level.
    Info,
    /// Logged as an error, with its sources, and reported to the error tracker.
    Error,
}

/// The level at which an error is logged.
pub open spec fn spec_log_level(e: AppError) -> LogLevel {
    match e {
        AppError::NotFound(_) | AppError::Conflict(_) => LogLevel::Debug,
        AppError::Validation(_) | AppError::BadRequest(_) | AppError::MethodNotAllowed => LogLevel::Info,
        _ => LogLevel::Error,
    }
}

impl AppError {
    /// The HTTP status code that the error is answered with.
    pub fn status_code(&self) -> (code: u16)
        ensures
            code == spec_status_code(*self),
    {
        match self {
            AppError::Unauthenticated(_) => 401,
            AppError::NotFound(_) => 404,
            AppError::NoPermission => 403,
            AppError::Validation(_) | AppError::BadRequest(_) => 400,
            AppError::MethodNotAllowed => 405,
            AppError::Conflict(_) => 409,
            _ => 500,
        }
    }

    /// The error code that clients see.
    pub fn error_code(&self) -> (code: &'static str)
        ensures
            code == spec_error_code(*self),
    {
        match self {
            AppError::Unauthenticated(_) => "UNAUTHENTICATED",
            AppError::NotFound(_) => "NOT_FOUND",
            AppError::NoPermission => "NO_PERMISSION",
            AppError::Validation(_) => "VALIDATION_FAIL",
            AppError::BadRequest(_) => "BAD_REQUEST",
            AppError::MethodNotAllowed => "METHOD_NOT_ALLOWED",
            AppError::Conflict(_) => "CONFLICT",
            _ => "UNEXPECTED",
        }
    }

    /// The table that a not-found or conflict error names.
    pub fn table(&self) -> (t: Option<String>)
        ensures
            match *self {
                AppError::NotFound(table) => t is Some && t->0@ == table@,
                AppError::Conflict(table) => t is Some && t->0@ == table@,
                _ => t is None,
            },
    {
        match self {
            AppError::NotFound(table) => Some(String::from_str(table)),
            AppError::Conflict(table) => Some(table.clone()),
            _ => None,
        }
    }

    /// The error answered to a request sent with a wrong path or method.
    pub open spec fn missing_spec() -> AppError {
        AppError::NotFound("The request was sent with the wrong path or method")
    }

    /// The error answered to a request sent with a wrong path or method.
    pub fn missing() -> (e: AppError)
        ensures
            e == AppError::missing_spec(),
    {
        AppError::NotFound("The request was sent with the wrong path or method")
    }

    /// The text of the error, as the client reads it.
    pub fn message(&self) -> (m: String)
        ensures
            m@ == spec_message(*self),
    {
        match self {
            AppError::Database { source } => joined("An unexpected database error occurred: ", source.as_str()),
            AppError::Cache { source } => joined("An unexpected cache database error occurred: ", source.as_str()),
            AppError::Unauthenticated(_) => String::from_str("Authentication failed"),
            AppError::NotFound(table) => quoted(table, "\" not found"),
            AppError::NoPermission => String::from_str("Permission denied"),
            AppError::Validation(v) => joined("Validation failed: ", v.0),
            AppError::Unexpected(_) => String::from_str("An unexpected error occurred"),
            AppError::Serialize(_) => String::from_str("An unexpected serialize error occurred"),
            AppError::BadRequest(m) => joined("Wrong request format: ", m.as_str()),
            AppError::MethodNotAllowed => String::from_str("Method not allowed"),
            AppError::Conflict(table) => quoted(table.as_str(), "\" already exists"),
            AppError::Hyper { .. } => String::from_str("An I/O error occurred"),
            AppError::TokioIo { .. } => String::from_str("An I/O error occurred"),
        }
    }

    /// The level at which the error is logged.
    pub fn log_level(&self) -> (level: LogLevel)
        ensures
            level == spec_log_level(*self),
    {
        match self {
            AppError::NotFound(_) | AppError::Conflict(_) => LogLevel::Debug,
            AppError::Validation(_) | AppError::BadRequest(_) | AppError::MethodNotAllowed => LogLevel::Info,
            _ => LogLevel::Error,
        }
    }
}

/// An error of a model operation.
#[derive(Debug)]
pub enum ModelError {
    /// A validation failed.
    Validation(ValidationFailed),
    /// The database failed, with its message.
    Database(String),
    /// The named table already holds the record.
    Conflict(String),
}

/// The SQL state of a unique violation.
pub open spec fn unique_violation() -> Seq<char> {
    "23505"@
}

/// What a database error becomes: a conflict on its table (or "Unknown") where the
/// database reports a unique violation, else a database error.
pub open spec fn spec_model_error_from_db(code: Option<Seq<char>>, table: Option<Seq<char>>, message: Seq<char>) -> (ModelErrorKind, Seq<char>) {
    if code == Some(unique_violation()) {
        (ModelErrorKind::Conflict, match table { Some(t) => t, None => "Unknown"@ })
    } else {
        (ModelErrorKind::Database, message)
    }
}

/// A database error is a conflict exactly where the database reports the SQL state
/// `23505` (a unique violation); the conflict names the table, or `Unknown` where
/// the error names none. Any other error is a database error that keeps the
/// database's message.
pub proof fn lemma_model_error_from_db(code: Option<Seq<char>>, table: Option<Seq<char>>, message: Seq<char>)
    ensures
        spec_model_error_from_db(code, table, message).0 == ModelErrorKind::Conflict <==> code == Some("23505"@),
        code == Some("23505"@) ==> spec_model_error_from_db(code, table, message).1 == (match table {
            Some(t) => t,
            None => "Unknown"@,
        }),
        code != Some("23505"@) ==> spec_model_error_from_db(code, table, message) == (ModelErrorKind::Database, message),
{
}

/// The variant of a model error, without its payload.
#[derive(Clone, Copy, Debug, PartialEq, Eq)]
pub enum ModelErrorKind {
    Validation,
    Database,
    Conflict,
}

impl ModelError {
    /// The error that a database error becomes, from the SQL state that the
    /// database reports (if any), the table it names (if any) and its message.
    pub fn from_db(code: Option<String>, table: Option<String>, message: String) -> (e: ModelError)
        ensures
            ({
                let (kind, text) = spec_model_error_from_db(
                    match code { Some(c) => Some(c@), None => None },
                    match table { Some(t) => Some(t@), None => None },
                    message@,
                );
                match e {
                    ModelError::Conflict(t) => kind == ModelErrorKind::Conflict && t@ == text,
                    ModelError::Database(m) => kind == ModelErrorKind::Database && m@ == text,
                    ModelError::Validation(_) => false,
                }
            }),
    {
        let unique = String::from_str("23505");
        let is_unique = match &code {
            Some(c) => *c == unique,
            None => false,
        };
        if is_unique {
            match table {
                Some(t) => ModelError::Conflict(t),
                None => ModelError::Conflict(String::from_str("Unknown")),
            }
        } else {
            ModelError::Database(message)
        }
    }

    /// The application error that a model error becomes.
    pub fn into_app_error(self) -> (e: AppError)
        ensures
            match self {
                ModelError::Validation(v) => e == AppError::Validation(v),
                ModelError::Database(m) => e == AppError::Database { source: m },
                ModelError::Conflict(t) => e == AppError::Conflict(t),
            },
    {
        match self {
            ModelError::Validation(v) => AppError::Validation(v),
            ModelError::Database(source) => AppError::Database { source },
            ModelError::Conflict(t) => AppError::Conflict(t),
        }
    }
}

} // verus!
