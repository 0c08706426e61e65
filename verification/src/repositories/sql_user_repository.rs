//! A user as a row of the table `Users(id, username, password_hash)`.

use super::user_repository::UserEntity;
use vstd::prelude::*;
use vstd::std_specs::convert::FromSpecImpl;

verus! {

/// One row of the table of users.
#[derive(Debug)]
pub struct UserRow {
    pub id: String,
    pub username: String,
    pub password_hash: String,
}

impl From<UserRow> for UserEntity {
    /// The user that the row stands for, column by column.
    fn from(value: UserRow) -> (r: Self) {
        UserEntity { id: value.id, username: value.username, pw_hash: value.password_hash }
    }
}

impl FromSpecImpl<UserRow> for UserEntity {
    open spec fn obeys_from_spec() -> bool {
        true
    }

    open spec fn from_spec(value: UserRow) -> Self {
        UserEntity { id: value.id, username: value.username, pw_hash: value.password_hash }
    }
}

} // verus!
