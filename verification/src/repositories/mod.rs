pub mod in_memory_todo_repository;
pub mod in_memory_user_repository;
pub mod sql_todo_repository;
pub mod sql_user_repository;
pub mod sqlx_error_mapper;
pub mod todo_repository;
pub mod user_repository;

use crate::utils::text::{debug_format, debug_text, option_text};
use vstd::prelude::*;
use vstd::string::StringExecFns;

verus! {

/// What a store can report instead of a result.
#[derive(Debug)]
pub enum RepositoryError {
    ItemAlreadyExists,
    ItemNotFound,
    DatabaseConnectionError { info: Option<String> },
    UnknownError { info: Option<String> },
}

pub type RepositoryResult<T> = Result<T, RepositoryError>;

impl RepositoryError {
    /// What `message` gives.
    pub open spec fn message_spec(&self) -> Seq<char> {
        match self {
            RepositoryError::ItemAlreadyExists => "already exists"@,
            RepositoryError::ItemNotFound => "item not found"@,
            RepositoryError::DatabaseConnectionError { info } => "database connection error "@
                + debug_text(option_text(*info)),
            RepositoryError::UnknownError { info } => "unknown: "@ + debug_text(
                option_text(*info),
            ),
        }
    }

    /// The error in words. A description is written after them as `Debug`
    /// writes an optional text.
    pub fn message(&self) -> (r: String)
        ensures
            r@ == self.message_spec(),
    {
        match self {
            RepositoryError::ItemAlreadyExists => String::from_str("already exists"),
            RepositoryError::ItemNotFound => String::from_str("item not found"),
            RepositoryError::DatabaseConnectionError { info } => String::from_str(
                "database connection error ",
            ).concat(debug_format(info).as_str()),
            RepositoryError::UnknownError { info } => String::from_str("unknown: ").concat(
                debug_format(info).as_str(),
            ),
        }
    }
}

} // verus!
