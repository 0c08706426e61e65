//! The user store kept in memory.

use super::user_repository::{has_username, ids_distinct, UserEntity, UserRepository, UserView};
use super::{RepositoryError, RepositoryResult};
use crate::utils::sequence_id::{decimal, SequenceId};
use vstd::prelude::*;
use vstd::string::StringExecFns;

verus! {

/// What the store says when its counter of identifiers is used up.
pub const NO_ROOM_FOR_USER: &'static str = "no identifier is left for a new user";

/// Users in a vector, in the order of their creation, with identifiers drawn
/// from a counter. Nothing outlives the value; sharing it between threads is
/// the owner's business.
///
/// A vector, and not a hash map keyed by the identifier: of a std map with
/// `String` keys Verus proves nothing, not even its length after one insert.
/// What the map would give, that no identifier occurs twice, is part of `wf`.
pub struct InMemoryUserRepository {
    users: Vec<UserEntity>,
    ids: SequenceId,
}

impl InMemoryUserRepository {
    /// How many users were ever created here.
    pub closed spec fn created(&self) -> nat {
        self.ids.issued()
    }

    /// An empty store.
    pub fn new() -> (r: Self)
        ensures
            r.wf(),
            r.users() == Seq::<UserView>::empty(),
            r.created() == 0,
            r.dependable(),
            r.has_room(),
    {
        let r = InMemoryUserRepository { users: Vec::new(), ids: SequenceId::new() };
        assert(r.users() =~= Seq::<UserView>::empty());
        r
    }

    /// An empty store whose identifiers start at `count`, as if that many
    /// users had been created and were gone. It has room for the users up to
    /// the end of the counter.
    pub fn starting_at(count: u64) -> (r: Self)
        ensures
            r.wf(),
            r.users() == Seq::<UserView>::empty(),
            r.created() == count,
            r.dependable(),
    {
        let r = InMemoryUserRepository { users: Vec::new(), ids: SequenceId::starting_at(count) };
        assert(r.users() =~= Seq::<UserView>::empty());
        r
    }
}

impl UserRepository for InMemoryUserRepository {
    closed spec fn users(&self) -> Seq<UserView> {
        self.users@.map_values(|u: UserEntity| u@)
    }

    closed spec fn wf(&self) -> bool {
        &&& forall|i: int|
            0 <= i < self.users@.len() ==> self.ids.has_issued((#[trigger] self.users@[i]).id@)
        &&& ids_distinct(self.users())
    }

    /// Always.
    open spec fn dependable(&self) -> bool {
        true
    }

    /// Until the counter of identifiers is used up.
    open spec fn has_room(&self) -> bool {
        self.created() < u64::MAX
    }

    proof fn lemma_ids_distinct(&self) {
    }

    fn get_user_by_id(&self, id: &str) -> (r: RepositoryResult<Option<UserEntity>>) {
        let needle = id.to_owned();
        let mut i: usize = 0;
        while i < self.users.len()
            invariant
                i <= self.users@.len(),
                needle@ == id@,
                forall|j: int| 0 <= j < i ==> (#[trigger] self.users()[j]).id != id@,
            decreases self.users@.len() - i,
        {
            if self.users[i].id == needle {
                let found = self.users[i].clone();
                assert(self.users()[i as int] == found@);
                return Ok(Some(found));
            }
            i += 1;
        }
        Ok(None)
    }

    /// Of several users with this name gives the one created first.
    fn get_user_by_username(&self, username: &str) -> (r: RepositoryResult<Option<UserEntity>>)
        ensures
            r matches Ok(Some(u)) ==> exists|i: int|
                0 <= i < self.users().len() && #[trigger] self.users()[i] == u@ && !has_username(
                    self.users().take(i),
                    username@,
                ),
    {
        let needle = username.to_owned();
        let mut i: usize = 0;
        while i < self.users.len()
            invariant
                i <= self.users@.len(),
                needle@ == username@,
                forall|j: int| 0 <= j < i ==> (#[trigger] self.users()[j]).username != username@,
            decreases self.users@.len() - i,
        {
            if self.users[i].username == needle {
                let found = self.users[i].clone();
                assert(self.users()[i as int] == found@);
                assert(!has_username(self.users().take(i as int), username@)) by {
                    assert forall|j: int| 0 <= j < self.users().take(i as int).len() implies (
                    #[trigger] self.users().take(i as int)[j]).username != username@ by {
                        assert(self.users().take(i as int)[j] == self.users()[j]);
                    }
                }
                return Ok(Some(found));
            }
            i += 1;
        }
        Ok(None)
    }

    /// Where no room is left the error is `UnknownError`. The identifier is
    /// the number of users created before, in decimal.
    fn create_user(&mut self, username: &str, pw_hash: &str) -> (r: RepositoryResult<String>)
        ensures
            r matches Ok(id) ==> id@ == decimal(old(self).created()) && final(self).created()
                == old(self).created() + 1,
            r matches Err(e) ==> (e matches RepositoryError::UnknownError { info: Some(text) }
                && text@ == NO_ROOM_FOR_USER@ && final(self).created() == old(self).created()),
    {
        let id = match self.ids.fresh() {
            Some(id) => id,
            None => {
                return Err(
                    RepositoryError::UnknownError {
                        info: Some(String::from_str(NO_ROOM_FOR_USER)),
                    },
                );
            },
        };
        let entity = UserEntity {
            id: id.clone(),
            username: username.to_owned(),
            pw_hash: pw_hash.to_owned(),
        };
        proof {
            assert forall|i: int| 0 <= i < self.users().len() implies (
            #[trigger] self.users()[i]).id != id@ by {
                assert(old(self).ids.has_issued(self.users@[i].id@));
            }
        }
        self.users.push(entity);
        proof {
            assert(self.users() =~= old(self).users().push(
                UserView { id: id@, username: username@, pw_hash: pw_hash@ },
            ));
        }
        Ok(id)
    }
}

} // verus!
