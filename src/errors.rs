//! The error taxonomy, and the classification of server and transport failures.
use crate::wire::same_text;
use vstd::prelude::*;
use vstd::string::StringExecFns;

verus! {

#[verifier::external_type_specification]
#[verifier::external_body]
pub struct ExPgError(tokio_postgres::Error);

/// The SQL state of a uniqueness-constraint violation.
pub const UNIQUE_VIOLATION_CODE: i32 = 23505;

/// The code of every failure that is not a uniqueness-constraint violation.
pub const GENERIC_CODE: i32 = 1;

/// The kinds of failure the library reports.
#[derive(Debug, Clone, Copy, PartialEq, Eq, Structural)]
pub enum ErrorKind {
    /// The connection, the network or the protocol failed.
    Transport,
    /// The server refused a write that would break a uniqueness constraint.
    UniqueViolation,
    /// The server reported some other error.
    Other,
    /// No column has the name asked for, or a single-row query did not give one row.
    NotFound,
    /// A column position past the last column.
    OutOfRange,
    /// A column payload could not be decoded.
    Decode,
}

/// A classified failure.
#[derive(Debug, Clone)]
pub struct LibError {
    pub kind: ErrorKind,
    /// `UNIQUE_VIOLATION_CODE` for a uniqueness violation, `GENERIC_CODE` otherwise.
    pub code: i32,
    /// The server's SQL state, where the server reported the failure.
    pub server_code: Option<String>,
    /// The violated constraint, where the server named it.
    pub constraint: Option<String>,
    /// A description that is safe to show to the caller.
    pub detail: Option<String>,
}

/// Whether a SQL state is the one of a uniqueness violation.
pub open spec fn is_unique_state(state: Seq<char>) -> bool {
    state == "23505"@
}

/// The classification of a failure from the server's SQL state (none for a failure
/// of the transport itself), the constraint it names and a description.
pub open spec fn classified(sql_state: Option<String>, constraint: Option<String>, detail: String) -> LibError {
    match sql_state {
        Some(s) => if is_unique_state(s@) {
            LibError {
                kind: ErrorKind::UniqueViolation,
                code: UNIQUE_VIOLATION_CODE,
                server_code: sql_state,
                constraint,
                detail: Some(detail),
            }
        } else {
            LibError {
                kind: ErrorKind::Other,
                code: GENERIC_CODE,
                server_code: sql_state,
                constraint,
                detail: Some(detail),
            }
        },
        None => LibError {
            kind: ErrorKind::Transport,
            code: GENERIC_CODE,
            server_code: None,
            constraint: None,
            detail: Some(detail),
        },
    }
}

/// Classifies a failure from its parts: a uniqueness violation carries the
/// constraint's name, any other server error is `Other`, and a failure without a
/// server error is `Transport`.
pub fn classify(sql_state: Option<String>, constraint: Option<String>, detail: String) -> (r: LibError)
    ensures
        r == classified(sql_state, constraint, detail),
{
    match sql_state {
        Some(s) => {
            if same_text(s.as_str(), "23505") {
                LibError {
                    kind: ErrorKind::UniqueViolation,
                    code: UNIQUE_VIOLATION_CODE,
                    server_code: Some(s),
                    constraint,
                    detail: Some(detail),
                }
            } else {
                LibError {
                    kind: ErrorKind::Other,
                    code: GENERIC_CODE,
                    server_code: Some(s),
                    constraint,
                    detail: Some(detail),
                }
            }
        },
        None => LibError {
            kind: ErrorKind::Transport,
            code: GENERIC_CODE,
            server_code: None,
            constraint: None,
            detail: Some(detail),
        },
    }
}

/// A server error with the uniqueness-violation state is a `UniqueViolation` that
/// names the violated constraint; a server error with any other state is `Other`.
pub proof fn lemma_unique_violation_classified(sql_state: String, constraint: Option<String>, detail: String)
    ensures
        is_unique_state(sql_state@) ==> classified(Some(sql_state), constraint, detail).kind
            == ErrorKind::UniqueViolation && classified(Some(sql_state), constraint, detail).constraint
            == constraint,
        !is_unique_state(sql_state@) ==> classified(Some(sql_state), constraint, detail).kind
            == ErrorKind::Other,
{
}

/// Relies on `tokio_postgres::Error::as_db_error`, `DbError::code`, `SqlState::code`
/// and `DbError::constraint`: the SQL state and constraint of the error the server
/// sent, if the failure is one.
#[verifier::external_body]
fn server_error_parts(e: &tokio_postgres::Error) -> (r: Option<(String, Option<String>)>) {
    e.as_db_error().map(|d| (d.code().code().to_string(), d.constraint().map(|c| c.to_string())))
}

/// Relies on the `Debug` impl of `tokio_postgres::Error`: a description of the
/// failure, which holds no credentials.
#[verifier::external_body]
fn error_description(e: &tokio_postgres::Error) -> (r: String) {
    format!("{:?}", e)
}

/// Classifies a failure of the client.
pub fn classify_error(e: &tokio_postgres::Error) -> (r: LibError)
    ensures
        exists|s: Option<String>, c: Option<String>, d: String| r == classified(s, c, d),
{
    let detail = error_description(e);
    match server_error_parts(e) {
        Some((state, constraint)) => classify(Some(state), constraint, detail),
        None => classify(None, None, detail),
    }
}

impl LibError {
    /// The error for a request on a connection that has been closed.
    pub fn closed() -> (r: LibError)
        ensures
            r.kind == ErrorKind::Transport,
            r.code == GENERIC_CODE,
            r.server_code is None,
            r.constraint is None,
            r.detail matches Some(d) && d@ == "connection closed"@,
    {
        LibError {
            kind: ErrorKind::Transport,
            code: GENERIC_CODE,
            server_code: None,
            constraint: None,
            detail: Some(String::from_str("connection closed")),
        }
    }

    /// The error for a lookup that found nothing under `key`.
    pub fn not_found(key: &str) -> (r: LibError)
        ensures
            r.kind == ErrorKind::NotFound,
            r.code == GENERIC_CODE,
            r.server_code is None,
            r.constraint is None,
            r.detail matches Some(d) && d@ == key@,
    {
        LibError {
            kind: ErrorKind::NotFound,
            code: GENERIC_CODE,
            server_code: None,
            constraint: None,
            detail: Some(String::from_str(key)),
        }
    }

    /// The error for a column position past the last column.
    pub fn out_of_range() -> (r: LibError)
        ensures
            r.kind == ErrorKind::OutOfRange,
            r.code == GENERIC_CODE,
            r.server_code is None,
            r.constraint is None,
            r.detail is None,
    {
        LibError {
            kind: ErrorKind::OutOfRange,
            code: GENERIC_CODE,
            server_code: None,
            constraint: None,
            detail: None,
        }
    }
}

} // verus!
