//! Registration and login over a user store.

use super::auth_service::{
    hashing_failed, issue_session, login_post, logs_in, password_accepted,
    registration_may_proceed, registration_result, store_failed, stored_with, user_to_log_in,
    AuthService,
    AuthServiceError, AuthServiceResult, AuthState, NO_VALID_TIMESTAMP,
};
use crate::repositories::user_repository::UserRepository;
use crate::utils::clock::now;
use crate::utils::token_codec::TokenCodec;
use vstd::prelude::*;
use vstd::string::StringExecFns;

verus! {

/// The authentication service over a store of type `R`. The credential
/// hasher is given as two functions: `H` hashes a password, and `V` says
/// whether a password matches a stored hash. Either may fail with a
/// description.
pub struct DbAuthService<R, H, V> {
    user_repository: R,
    codec: TokenCodec,
    hash_password: H,
    verify_password: V,
}

impl<R, H, V> DbAuthService<R, H, V> where
    R: UserRepository,
    H: Fn(&str) -> Result<String, String>,
    V: Fn(&str, &str) -> Result<bool, String>,
 {
    /// The store behind the service.
    pub closed spec fn repository(&self) -> R {
        self.user_repository
    }

    /// The codec that signs the sessions.
    pub closed spec fn token_codec(&self) -> TokenCodec {
        self.codec
    }

    /// The function that hashes a password.
    pub closed spec fn password_hasher(&self) -> H {
        self.hash_password
    }

    /// The function that checks a password against a stored hash.
    pub closed spec fn password_matcher(&self) -> V {
        self.verify_password
    }

    /// Whether `hash`, called on a password that reads `password`, may return
    /// `hashed`.
    pub open spec fn hashes(hash: H, password: Seq<char>, hashed: Result<String, String>) -> bool {
        exists|p: &str| p@ == password && #[trigger] call_ensures(hash, (p,), hashed)
    }

    /// Whether `check`, called on a stored hash that reads `hash` and a
    /// password that reads `password`, may return `verdict`.
    pub open spec fn verifies(
        check: V,
        hash: Seq<char>,
        password: Seq<char>,
        verdict: Result<bool, String>,
    ) -> bool {
        exists|h: &str, p: &str|
            h@ == hash && p@ == password && #[trigger] call_ensures(check, (h, p), verdict)
    }

    /// Whether the two functions of a credential hasher take every input.
    pub open spec fn total(hash: H, check: V) -> bool {
        &&& forall|p: &str| call_requires(hash, (p,))
        &&& forall|h: &str, p: &str| call_requires(check, (h, p))
    }

    /// The service is the one that `new` makes of these four parts: it holds
    /// them, it is consistent if the store is and the two functions take every
    /// input, and its state is what the parts give.
    pub open spec fn made_of(
        &self,
        user_repository: R,
        codec: TokenCodec,
        hash_password: H,
        verify_password: V,
    ) -> bool {
        &&& self.repository() == user_repository
        &&& self.token_codec() == codec
        &&& self.password_hasher() == hash_password
        &&& self.password_matcher() == verify_password
        &&& self.wf() <==> user_repository.wf() && Self::total(hash_password, verify_password)
        &&& self.state().users == user_repository.users()
        &&& self.state().dependable == user_repository.dependable()
        &&& self.state().has_room == user_repository.has_room()
        &&& self.state().secret == codec.secret()
        &&& forall|password: Seq<char>, hashed: Result<String, String>|
            #[trigger] (self.state().may_hash)(password, hashed) == Self::hashes(
                hash_password,
                password,
                hashed,
            )
        &&& forall|hash: Seq<char>, password: Seq<char>, verdict: Result<bool, String>|
            #[trigger] (self.state().may_verify)(hash, password, verdict) == Self::verifies(
                verify_password,
                hash,
                password,
                verdict,
            )
    }

    /// A service over the given store, codec and credential hasher.
    pub fn new(user_repository: R, codec: TokenCodec, hash_password: H, verify_password: V) -> (r:
        Self)
        ensures
            r.made_of(user_repository, codec, hash_password, verify_password),
    {
        DbAuthService { user_repository, codec, hash_password, verify_password }
    }

    /// The store behind the service.
    pub fn user_repository(&self) -> (r: &R)
        ensures
            *r == self.repository(),
    {
        &self.user_repository
    }

    /// The codec that signs the sessions.
    pub fn codec(&self) -> (r: &TokenCodec)
        ensures
            *r == self.token_codec(),
    {
        &self.codec
    }
}

impl<R, H, V> AuthService for DbAuthService<R, H, V> where
    R: UserRepository,
    H: Fn(&str) -> Result<String, String>,
    V: Fn(&str, &str) -> Result<bool, String>,
 {
    open spec fn state(&self) -> AuthState {
        AuthState {
            users: self.repository().users(),
            dependable: self.repository().dependable(),
            has_room: self.repository().has_room(),
            secret: self.token_codec().secret(),
            may_hash: |password: Seq<char>, hashed: Result<String, String>|
                Self::hashes(self.password_hasher(), password, hashed),
            may_verify: |hash: Seq<char>, password: Seq<char>, verdict: Result<bool, String>|
                Self::verifies(self.password_matcher(), hash, password, verdict),
        }
    }

    /// The store is consistent, and the two functions of the credential
    /// hasher take every input.
    open spec fn wf(&self) -> bool {
        &&& self.repository().wf()
        &&& Self::total(self.password_hasher(), self.password_matcher())
    }

    fn register_user(&mut self, username: &str, password: &str) -> (r: AuthServiceResult<()>) {
        let ghost before = self.state();
        let found = self.user_repository.get_user_by_username(username);
        let ghost looked = found;
        match registration_may_proceed(found) {
            Ok(_) => {},
            Err(e) => {
                let r: AuthServiceResult<()> = Err(e);
                proof {
                    if looked is Err {
                        assert(store_failed(r, looked->Err_0));
                    }
                }
                return r;
            },
        }
        let hash_password = &self.hash_password;
        let hashed = hash_password(password);
        assert((before.may_hash)(password@, hashed));
        let hash = match hashed {
            Ok(hash) => hash,
            Err(text) => {
                let r: AuthServiceResult<()> = Err(AuthServiceError::Unknown { info: Some(text) });
                assert(hashing_failed(before, password@, text, r));
                return r;
            },
        };
        let created = self.user_repository.create_user(username, hash.as_str());
        proof {
            assert(self.state().may_hash == before.may_hash);
            assert(self.state().may_verify == before.may_verify);
            if created is Ok {
                let id = created->Ok_0;
                assert(stored_with(before, self.state(), username@, password@, id@, hash));
            }
        }
        let r = registration_result(created);
        proof {
            if created is Err {
                assert(store_failed(r, created->Err_0));
            }
        }
        r
    }

    fn authenticate_user_at(&self, username: &str, password: &str, now: u64) -> (r:
        AuthServiceResult<String>) {
        let found = self.user_repository.get_user_by_username(username);
        let ghost looked = found;
        let user = match user_to_log_in(found) {
            Ok(user) => user,
            Err(e) => {
                let r: AuthServiceResult<String> = Err(e);
                proof {
                    if looked is Err {
                        assert(store_failed(r, looked->Err_0));
                    }
                }
                return r;
            },
        };
        let verify_password = &self.verify_password;
        let verdict = verify_password(user.pw_hash.as_str(), password);
        assert((self.state().may_verify)(user@.pw_hash, password@, verdict));
        let r = issue_session(&self.codec, &user, verdict, now);
        assert(logs_in(self.state(), username@, password@, now, user@, verdict, r));
        r
    }

    fn authenticate_user(&self, username: &str, password: &str) -> (r: AuthServiceResult<String>) {
        let found = self.user_repository.get_user_by_username(username);
        let ghost looked = found;
        let user = match user_to_log_in(found) {
            Ok(user) => user,
            Err(e) => {
                let r: AuthServiceResult<String> = Err(e);
                proof {
                    if looked is Err {
                        assert(store_failed(r, looked->Err_0));
                    }
                    assert(login_post(self.state(), username@, password@, 0, r));
                }
                return r;
            },
        };
        let verify_password = &self.verify_password;
        let verdict = verify_password(user.pw_hash.as_str(), password);
        assert((self.state().may_verify)(user@.pw_hash, password@, verdict));
        match password_accepted(verdict) {
            Ok(_) => {},
            Err(e) => {
                let r: AuthServiceResult<String> = Err(e);
                assert(logs_in(self.state(), username@, password@, 0, user@, verdict, r));
                assert(login_post(self.state(), username@, password@, 0, r));
                return r;
            },
        }
        match now() {
            Some(now) => {
                let r = issue_session(&self.codec, &user, Ok(true), now);
                assert(logs_in(self.state(), username@, password@, now, user@, verdict, r));
                assert(login_post(self.state(), username@, password@, now, r));
                r
            },
            None => {
                let r: AuthServiceResult<String> = Err(
                    AuthServiceError::Unknown { info: Some(String::from_str(NO_VALID_TIMESTAMP)) },
                );
                assert(logs_in(self.state(), username@, password@, u64::MAX, user@, verdict, r));
                assert(login_post(self.state(), username@, password@, u64::MAX, r));
                r
            },
        }
    }
}

} // verus!
