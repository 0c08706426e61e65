//! How an error of the SQL driver reads in the store's own terms.

use super::RepositoryError;
use sqlx::Error;
use vstd::prelude::*;

verus! {

/// The error type of the SQL driver, `sqlx::Error`. The contracts carry it
/// through and never look into it.
#[verifier::external_type_specification]
#[verifier::external_body]
pub struct ExSqlxError(sqlx::Error);

/// The kinds of error of the SQL driver that the store tells apart. `Other`
/// stands for every kind that is not named here.
#[derive(Debug, Clone, Copy, PartialEq, Eq, Structural)]
pub enum SqlErrorKind {
    Configuration,
    Database,
    Io,
    Tls,
    Protocol,
    RowNotFound,
    ColumnIndexOutOfBounds,
    AnyDriverError,
    PoolTimedOut,
    PoolClosed,
    WorkerCrashed,
    Other,
}

/// The kind of a driver's error: which variant of `sqlx::Error` it is, with
/// `Other` for every variant that `SqlErrorKind` does not name.
pub uninterp spec fn sql_error_kind_of(e: sqlx::Error) -> SqlErrorKind;

/// The text with which a driver's error describes itself: what its `Display`
/// writes.
pub uninterp spec fn sql_error_text_of(e: sqlx::Error) -> Seq<char>;

/// Says which variant of `sqlx::Error` the error is, by a match on it.
///
/// Believed, not proved: the answer depends on the error alone.
#[verifier::external_body]
fn sqlx_error_kind(e: &Error) -> (r: SqlErrorKind)
    ensures
        r == sql_error_kind_of(*e),
{
    match e {
        Error::Configuration(_) => SqlErrorKind::Configuration,
        Error::Database(_) => SqlErrorKind::Database,
        Error::Io(_) => SqlErrorKind::Io,
        Error::Tls(_) => SqlErrorKind::Tls,
        Error::Protocol(_) => SqlErrorKind::Protocol,
        Error::RowNotFound => SqlErrorKind::RowNotFound,
        Error::ColumnIndexOutOfBounds { .. } => SqlErrorKind::ColumnIndexOutOfBounds,
        Error::AnyDriverError(_) => SqlErrorKind::AnyDriverError,
        Error::PoolTimedOut => SqlErrorKind::PoolTimedOut,
        Error::PoolClosed => SqlErrorKind::PoolClosed,
        Error::WorkerCrashed => SqlErrorKind::WorkerCrashed,
        _ => SqlErrorKind::Other,
    }
}

/// The text that `sqlx::Error` writes with its `Display`, through
/// `to_string`.
///
/// Believed, not proved: the text depends on the error alone.
#[verifier::external_body]
fn sqlx_error_text(e: &Error) -> (r: String)
    ensures
        r@ == sql_error_text_of(*e),
{
    e.to_string()
}

/// The store's error for a driver's error of the kind `kind` that describes
/// itself as `text`: a missing row or column is `ItemNotFound`; trouble with
/// the configuration, the connection, the pool or the database itself is
/// `DatabaseConnectionError`; every other kind is `UnknownError`. The last two
/// keep the description.
pub open spec fn mapped_error(kind: SqlErrorKind, text: String) -> RepositoryError {
    match kind {
        SqlErrorKind::RowNotFound | SqlErrorKind::ColumnIndexOutOfBounds =>
            RepositoryError::ItemNotFound,
        SqlErrorKind::Other => RepositoryError::UnknownError { info: Some(text) },
        _ => RepositoryError::DatabaseConnectionError { info: Some(text) },
    }
}

/// Maps a driver's error, given by its kind and its description.
pub fn map_sql_error(kind: SqlErrorKind, text: String) -> (r: RepositoryError)
    ensures
        r == mapped_error(kind, text),
{
    match kind {
        SqlErrorKind::Configuration => RepositoryError::DatabaseConnectionError { info: Some(text) },
        SqlErrorKind::Database => RepositoryError::DatabaseConnectionError { info: Some(text) },
        SqlErrorKind::Io => RepositoryError::DatabaseConnectionError { info: Some(text) },
        SqlErrorKind::Tls => RepositoryError::DatabaseConnectionError { info: Some(text) },
        SqlErrorKind::Protocol => RepositoryError::DatabaseConnectionError { info: Some(text) },
        SqlErrorKind::RowNotFound => RepositoryError::ItemNotFound,
        SqlErrorKind::ColumnIndexOutOfBounds => RepositoryError::ItemNotFound,
        SqlErrorKind::AnyDriverError => RepositoryError::DatabaseConnectionError { info: Some(text) },
        SqlErrorKind::PoolTimedOut => RepositoryError::DatabaseConnectionError { info: Some(text) },
        SqlErrorKind::PoolClosed => RepositoryError::DatabaseConnectionError { info: Some(text) },
        SqlErrorKind::WorkerCrashed => RepositoryError::DatabaseConnectionError { info: Some(text) },
        SqlErrorKind::Other => RepositoryError::UnknownError { info: Some(text) },
    }
}

/// `r` is the store's error for the driver's error `value`, and `text` is
/// the description that it keeps.
pub open spec fn maps_to(value: Error, text: String, r: RepositoryError) -> bool {
    text@ == sql_error_text_of(value) && r == mapped_error(sql_error_kind_of(value), text)
}

impl From<Error> for RepositoryError {
    /// The store's error for a driver's error: what [`mapped_error`] gives
    /// for its kind and its description.
    fn from(value: Error) -> (r: Self)
        ensures
            exists|text: String| #[trigger] maps_to(value, text, r),
    {
        let text = sqlx_error_text(&value);
        let kind = sqlx_error_kind(&value);
        let r = map_sql_error(kind, text);
        assert(maps_to(value, text, r));
        r
    }
}

/// The description in the result is a text of its own that reads as the
/// driver wrote it, so no spec function gives the result as one value: what
/// `from` returns stands at `from`.
impl vstd::std_specs::convert::FromSpecImpl<Error> for RepositoryError {
    open spec fn obeys_from_spec() -> bool {
        false
    }

    open spec fn from_spec(value: Error) -> Self {
        arbitrary()
    }
}

} // verus!
