//! The user store: what it holds and what each operation promises.

use super::RepositoryResult;
use vstd::prelude::*;

verus! {

/// A user as the contracts speak of it.
pub struct UserView {
    pub id: Seq<char>,
    pub username: Seq<char>,
    pub pw_hash: Seq<char>,
}

/// A registered user. `pw_hash` is the stored hash of the password, never the
/// password itself.
#[derive(Debug)]
pub struct UserEntity {
    pub id: String,
    pub username: String,
    pub pw_hash: String,
}

impl View for UserEntity {
    type V = UserView;

    open spec fn view(&self) -> UserView {
        UserView { id: self.id@, username: self.username@, pw_hash: self.pw_hash@ }
    }
}

impl Clone for UserEntity {
    fn clone(&self) -> (r: Self)
        ensures
            r == *self,
    {
        UserEntity {
            id: self.id.clone(),
            username: self.username.clone(),
            pw_hash: self.pw_hash.clone(),
        }
    }
}

/// Whether some user in `users` has the identifier `id`.
pub open spec fn has_id(users: Seq<UserView>, id: Seq<char>) -> bool {
    exists|i: int| 0 <= i < users.len() && (#[trigger] users[i]).id == id
}

/// Whether some user in `users` has the name `username`.
pub open spec fn has_username(users: Seq<UserView>, username: Seq<char>) -> bool {
    exists|i: int| 0 <= i < users.len() && (#[trigger] users[i]).username == username
}

/// No identifier belongs to two users.
pub open spec fn ids_distinct(users: Seq<UserView>) -> bool {
    forall|i: int, j: int|
        0 <= i < users.len() && 0 <= j < users.len() && i != j ==> (#[trigger] users[i]).id != (
        #[trigger] users[j]).id
}

/// No name belongs to two users.
pub open spec fn usernames_distinct(users: Seq<UserView>) -> bool {
    forall|i: int, j: int|
        0 <= i < users.len() && 0 <= j < users.len() && i != j ==> (#[trigger] users[i]).username
            != (#[trigger] users[j]).username
}

/// A store of users. `users` lists them in the order in which they were
/// created; the store gives each an identifier of its own and never changes or
/// removes one. It does not look at names: whoever needs them unique checks
/// before creating.
pub trait UserRepository {
    /// The users held.
    spec fn users(&self) -> Seq<UserView>;

    /// The store's own consistency, which `new` of an implementation sets up
    /// and every operation keeps.
    spec fn wf(&self) -> bool;

    /// Whether this store can be counted on: a dependable store fails in no
    /// lookup, and in a creation only when it has no room, and then with
    /// `UnknownError`. A store that rests on a connection which may break is
    /// not dependable.
    spec fn dependable(&self) -> bool;

    /// Whether one more user can be created.
    spec fn has_room(&self) -> bool;

    /// In a consistent store no identifier occurs twice.
    proof fn lemma_ids_distinct(&self)
        requires
            self.wf(),
        ensures
            ids_distinct(self.users()),
    ;

    /// Looks the user with this identifier up. A miss is `Ok(None)`, not an
    /// error.
    fn get_user_by_id(&self, id: &str) -> (r: RepositoryResult<Option<UserEntity>>)
        requires
            self.wf(),
        ensures
            match r {
                Ok(Some(u)) => self.users().contains(u@) && u@.id == id@,
                Ok(None) => !has_id(self.users(), id@),
                Err(_) => !self.dependable(),
            },
    ;

    /// Looks a user with this name up. A miss is `Ok(None)`, not an error.
    fn get_user_by_username(&self, username: &str) -> (r: RepositoryResult<Option<UserEntity>>)
        requires
            self.wf(),
        ensures
            match r {
                Ok(Some(u)) => self.users().contains(u@) && u@.username == username@,
                Ok(None) => !has_username(self.users(), username@),
                Err(_) => !self.dependable(),
            },
    ;

    /// Adds a user under a new identifier and returns that identifier. On an
    /// error nothing is added.
    fn create_user(&mut self, username: &str, pw_hash: &str) -> (r: RepositoryResult<String>)
        requires
            old(self).wf(),
        ensures
            final(self).wf(),
            final(self).dependable() == old(self).dependable(),
            old(self).dependable() ==> (r is Ok <==> old(self).has_room()),
            match r {
                Ok(id) => {
                    &&& !has_id(old(self).users(), id@)
                    &&& final(self).users() == old(self).users().push(
                        UserView { id: id@, username: username@, pw_hash: pw_hash@ },
                    )
                },
                Err(e) => {
                    &&& final(self).users() == old(self).users()
                    &&& old(self).dependable() ==> e is UnknownError
                },
            },
    ;
}

} // verus!
