//! Registration and login: what they promise, whoever provides them.

use crate::repositories::user_repository::{
    has_id, has_username, ids_distinct, usernames_distinct, UserEntity, UserView,
};
use crate::repositories::{RepositoryError, RepositoryResult};
use crate::utils::text::{debug_format, debug_text, option_text};
use crate::utils::global_auth::{session_seconds, JWT_AUTH_EXPIRATION_MINS};
use crate::utils::token_codec::{reads_as, signed_token, ClaimsView, TokenClaims, TokenCodec};
use vstd::prelude::*;
use vstd::std_specs::convert::FromSpecImpl;
use vstd::string::StringExecFns;

verus! {

/// An error of registration or login as the contracts speak of it.
pub enum AuthServiceErrorView {
    UserAlreadyExists,
    UserDoesNotExists,
    IncorrectPassword,
    Unknown { info: Option<Seq<char>> },
}

/// What registration and login can report instead of a result. `Unknown`
/// stands for a failure of the store, the credential hasher or the token
/// codec, with its description where there is one.
#[derive(Debug)]
pub enum AuthServiceError {
    UserAlreadyExists,
    UserDoesNotExists,
    IncorrectPassword,
    Unknown { info: Option<String> },
}

pub type AuthServiceResult<T> = Result<T, AuthServiceError>;

impl View for AuthServiceError {
    type V = AuthServiceErrorView;

    open spec fn view(&self) -> AuthServiceErrorView {
        match self {
            AuthServiceError::UserAlreadyExists => AuthServiceErrorView::UserAlreadyExists,
            AuthServiceError::UserDoesNotExists => AuthServiceErrorView::UserDoesNotExists,
            AuthServiceError::IncorrectPassword => AuthServiceErrorView::IncorrectPassword,
            AuthServiceError::Unknown { info } => AuthServiceErrorView::Unknown {
                info: match info {
                    Some(text) => Some(text@),
                    None => None,
                },
            },
        }
    }
}

impl AuthServiceError {
    /// What `message` gives.
    pub open spec fn message_spec(&self) -> Seq<char> {
        match self {
            AuthServiceError::UserAlreadyExists => "User already exists"@,
            AuthServiceError::UserDoesNotExists => "User does not exist"@,
            AuthServiceError::IncorrectPassword => "Incorrect password"@,
            AuthServiceError::Unknown { info } => "Unknown error has occurred: "@ + debug_text(
                option_text(*info),
            ),
        }
    }

    /// The error in words. A description is written after them as `Debug`
    /// writes an optional text.
    pub fn message(&self) -> (r: String)
        ensures
            r@ == self.message_spec(),
    {
        match self {
            AuthServiceError::UserAlreadyExists => String::from_str("User already exists"),
            AuthServiceError::UserDoesNotExists => String::from_str("User does not exist"),
            AuthServiceError::IncorrectPassword => String::from_str("Incorrect password"),
            AuthServiceError::Unknown { info } => String::from_str(
                "Unknown error has occurred: ",
            ).concat(debug_format(info).as_str()),
        }
    }
}

/// The error of the service that stands for an error of the store: a
/// description is kept, and the two kinds that carry one both become
/// `Unknown`.
pub open spec fn auth_error(value: RepositoryError) -> AuthServiceError {
    match value {
        RepositoryError::ItemAlreadyExists => AuthServiceError::UserAlreadyExists,
        RepositoryError::UnknownError { info } => AuthServiceError::Unknown { info },
        RepositoryError::ItemNotFound => AuthServiceError::UserDoesNotExists,
        RepositoryError::DatabaseConnectionError { info } => AuthServiceError::Unknown { info },
    }
}

impl From<RepositoryError> for AuthServiceError {
    /// Each error of the store becomes one error of the service: the two
    /// kinds that carry a description both become `Unknown`, with the
    /// description kept.
    fn from(value: RepositoryError) -> (r: Self) {
        match value {
            RepositoryError::ItemAlreadyExists => AuthServiceError::UserAlreadyExists,
            RepositoryError::UnknownError { info } => AuthServiceError::Unknown { info },
            RepositoryError::ItemNotFound => AuthServiceError::UserDoesNotExists,
            RepositoryError::DatabaseConnectionError { info } => AuthServiceError::Unknown { info },
        }
    }
}

impl FromSpecImpl<RepositoryError> for AuthServiceError {
    open spec fn obeys_from_spec() -> bool {
        true
    }

    open spec fn from_spec(value: RepositoryError) -> Self {
        auth_error(value)
    }
}

/// The error `Unknown` with the description `text`.
pub open spec fn unknown(text: Seq<char>) -> AuthServiceErrorView {
    AuthServiceErrorView::Unknown { info: Some(text) }
}

/// A result of the service without its value, by the view of its error.
pub open spec fn outcome<T>(r: AuthServiceResult<T>) -> Result<(), AuthServiceErrorView> {
    match r {
        Ok(_) => Ok(()),
        Err(e) => Err(e@),
    }
}

/// A token or an error of the service, by their views.
pub open spec fn token_outcome(r: AuthServiceResult<String>) -> Result<
    Seq<char>,
    AuthServiceErrorView,
> {
    match r {
        Ok(token) => Ok(token@),
        Err(e) => Err(e@),
    }
}

/// A verdict of the credential hasher, with an error by its view.
pub open spec fn verdict_view(verdict: Result<bool, String>) -> Result<bool, Seq<char>> {
    match verdict {
        Ok(matches) => Ok(matches),
        Err(e) => Err(e@),
    }
}

/// Turns a failure that is described by a text into `Unknown` with that text,
/// and leaves a success as it is.
pub fn map_err_unknown<T>(r: Result<T, String>) -> (mapped: AuthServiceResult<T>)
    ensures
        match (r, mapped) {
            (Ok(a), Ok(b)) => a == b,
            (Err(text), Err(e)) => e == (AuthServiceError::Unknown { info: Some(text) }),
            _ => false,
        },
{
    match r {
        Ok(value) => Ok(value),
        Err(text) => Err(AuthServiceError::Unknown { info: Some(text) }),
    }
}

/// What the lookup of a name means for a registration under that name: a
/// user that was found stands in its way, as does a failure of the lookup.
pub open spec fn registration_after_lookup(
    found: RepositoryResult<Option<UserEntity>>,
) -> AuthServiceResult<()> {
    match found {
        Ok(None) => Ok(()),
        Ok(Some(_)) => Err(AuthServiceError::UserAlreadyExists),
        Err(e) => Err(auth_error(e)),
    }
}

/// Decides, from the lookup of the name, whether a registration goes on to
/// hash the password.
pub fn registration_may_proceed(found: RepositoryResult<Option<UserEntity>>) -> (r:
    AuthServiceResult<()>)
    ensures
        r == registration_after_lookup(found),
{
    match found {
        Ok(None) => Ok(()),
        Ok(Some(_)) => Err(AuthServiceError::UserAlreadyExists),
        Err(e) => Err(AuthServiceError::from(e)),
    }
}

/// What the store's answer to the creation of the user means for the
/// registration.
pub open spec fn registration_after_creation(created: RepositoryResult<String>) -> AuthServiceResult<
    (),
> {
    match created {
        Ok(_) => Ok(()),
        Err(e) => Err(auth_error(e)),
    }
}

/// Ends a registration with the store's answer to the creation of the user.
pub fn registration_result(created: RepositoryResult<String>) -> (r: AuthServiceResult<()>)
    ensures
        r == registration_after_creation(created),
{
    match created {
        Ok(_) => Ok(()),
        Err(e) => Err(AuthServiceError::from(e)),
    }
}

/// What the lookup of a name means for a login under that name: the user to
/// check the password against, `UserDoesNotExists`, or the failure of the
/// lookup.
pub open spec fn login_after_lookup(
    found: RepositoryResult<Option<UserEntity>>,
) -> AuthServiceResult<UserEntity> {
    match found {
        Ok(Some(user)) => Ok(user),
        Ok(None) => Err(AuthServiceError::UserDoesNotExists),
        Err(e) => Err(auth_error(e)),
    }
}

/// Decides, from the lookup of the name, whom a login is for.
pub fn user_to_log_in(found: RepositoryResult<Option<UserEntity>>) -> (r: AuthServiceResult<
    UserEntity,
>)
    ensures
        r == login_after_lookup(found),
{
    match found {
        Ok(Some(user)) => Ok(user),
        Ok(None) => Err(AuthServiceError::UserDoesNotExists),
        Err(e) => Err(AuthServiceError::from(e)),
    }
}

/// `r` is the failure `e` of the store, in the service's terms.
pub open spec fn store_failed<T>(r: AuthServiceResult<T>, e: RepositoryError) -> bool {
    r == Err::<T, AuthServiceError>(auth_error(e))
}

/// What a verdict of the credential hasher ends a login with, unless it is a
/// match: a mismatch is `IncorrectPassword`, and a failure of the hasher is
/// `Unknown` with its description.
pub open spec fn refusal_of(verdict: Result<bool, Seq<char>>) -> Option<AuthServiceErrorView> {
    match verdict {
        Ok(true) => None,
        Ok(false) => Some(AuthServiceErrorView::IncorrectPassword),
        Err(text) => Some(unknown(text)),
    }
}

/// Decides, from the verdict of the credential hasher, whether a login goes
/// on to a session: only a match lets it.
pub fn password_accepted(verdict: Result<bool, String>) -> (r: AuthServiceResult<()>)
    ensures
        match refusal_of(verdict_view(verdict)) {
            None => r is Ok,
            Some(refusal) => r matches Err(e) && e@ == refusal,
        },
{
    match verdict {
        Ok(true) => Ok(()),
        Ok(false) => Err(AuthServiceError::IncorrectPassword),
        Err(text) => Err(AuthServiceError::Unknown { info: Some(text) }),
    }
}

/// The description of the failure to date a session: its start or its end
/// lies outside the seconds that can be written down.
pub const NO_VALID_TIMESTAMP: &'static str = "valid timestamp";

/// The description of the failure to date a session, as the contracts speak
/// of it.
pub open spec fn no_valid_timestamp() -> Seq<char> {
    NO_VALID_TIMESTAMP@
}

/// The claims of a session of the user `id` that starts at `now`, where its
/// end can still be written down.
pub open spec fn session_claims(id: Seq<char>, now: u64) -> Option<ClaimsView> {
    if now + session_seconds() <= u64::MAX {
        Some(ClaimsView { id, issued: now, expiration: (now + session_seconds()) as u64 })
    } else {
        None
    }
}

/// What a login ends with once the user is found: `verdict` is what the
/// credential hasher said of the password against the user's stored hash.
/// A mismatch is `IncorrectPassword`; a match gives the token of a session
/// that starts at `now`; a failure of the hasher or of signing is `Unknown`
/// with its description. The time plays no part unless the password
/// matched.
pub open spec fn session_for(
    secret: Seq<char>,
    user_id: Seq<char>,
    verdict: Result<bool, Seq<char>>,
    now: u64,
) -> Result<Seq<char>, AuthServiceErrorView> {
    match refusal_of(verdict) {
        Some(refusal) => Err(refusal),
        None => match session_claims(user_id, now) {
            None => Err(unknown(no_valid_timestamp())),
            Some(claims) => match signed_token(secret, claims.id, claims.issued, claims.expiration) {
                Ok(token) => Ok(token),
                Err(text) => Err(unknown(text)),
            },
        },
    }
}

/// Ends a login for the user that was found, from the verdict of the
/// credential hasher on the password. A token that comes out carries the
/// claims of a session of that user which starts at `now`.
pub fn issue_session(
    codec: &TokenCodec,
    user: &UserEntity,
    verdict: Result<bool, String>,
    now: u64,
) -> (r: AuthServiceResult<String>)
    ensures
        token_outcome(r) == session_for(codec.secret(), user.id@, verdict_view(verdict), now),
        r matches Ok(token) ==> is_session_token(codec.secret(), token@, user.id@, now),
{
    match verdict {
        Err(text) => Err(AuthServiceError::Unknown { info: Some(text) }),
        Ok(false) => Err(AuthServiceError::IncorrectPassword),
        Ok(true) => {
            let expiration = match now.checked_add(60 * JWT_AUTH_EXPIRATION_MINS) {
                Some(expiration) => expiration,
                None => {
                    return Err(
                        AuthServiceError::Unknown {
                            info: Some(String::from_str(NO_VALID_TIMESTAMP)),
                        },
                    );
                },
            };
            let claims = TokenClaims { id: user.id.clone(), issued: now, expiration };
            map_err_unknown(codec.issue(&claims))
        },
    }
}

/// `after` is `before` with one new user called `username`, with the stored
/// hash `pw_hash`, under the identifier `id`, where before no user had that
/// identifier or that name.
pub open spec fn is_registration(
    before: Seq<UserView>,
    after: Seq<UserView>,
    username: Seq<char>,
    id: Seq<char>,
    pw_hash: Seq<char>,
) -> bool {
    &&& !has_username(before, username)
    &&& !has_id(before, id)
    &&& after == before.push(UserView { id, username, pw_hash })
}

/// What the contracts know of an authentication service.
pub struct AuthState {
    /// The registered users.
    pub users: Seq<UserView>,
    /// Whether the store behind the service can be counted on: it fails in no
    /// lookup, and in a creation only when it has no room.
    pub dependable: bool,
    /// Whether the store has room for one more user.
    pub has_room: bool,
    /// The secret under which sessions are signed.
    pub secret: Seq<char>,
    /// Whether the credential hasher, asked for a hash of a password, may
    /// give this answer. A hasher that salts has many answers.
    pub may_hash: spec_fn(Seq<char>, Result<String, String>) -> bool,
    /// Whether the credential hasher, asked whether a password (the second
    /// argument) matches a stored hash (the first), may give this answer.
    pub may_verify: spec_fn(Seq<char>, Seq<char>, Result<bool, String>) -> bool,
}

/// The hasher failed with the description `text`, and for that the
/// registration failed.
pub open spec fn hashing_failed(
    before: AuthState,
    password: Seq<char>,
    text: String,
    r: AuthServiceResult<()>,
) -> bool {
    (before.may_hash)(password, Err(text)) && outcome(r) == Err::<(), AuthServiceErrorView>(
        unknown(text@),
    )
}

/// The hasher gave `hash`, and the user was stored with it under `id`.
pub open spec fn stored_with(
    before: AuthState,
    after: AuthState,
    username: Seq<char>,
    password: Seq<char>,
    id: Seq<char>,
    hash: String,
) -> bool {
    (before.may_hash)(password, Ok(hash)) && is_registration(
        before.users,
        after.users,
        username,
        id,
        hash@,
    )
}

/// What `register_user(username, password)` has done when it returns `r`
/// and has taken the service from `before` to `after`. One of four things
/// happened:
/// - the name was taken: `UserAlreadyExists`, and nothing has changed;
/// - the name was free and the hasher failed: `Unknown` with the hasher's
///   description, and nothing has changed;
/// - the name was free and the user is stored, with a hash that the hasher
///   gave for the password;
/// - the store failed, the error is the store's error in the service's
///   terms, and nothing has changed. A dependable store fails only where the
///   name is free and no room is left, and its error is then `UnknownError`,
///   which the service reports as `Unknown`.
/// Nothing but the users and the room changes.
pub open spec fn registration_post(
    before: AuthState,
    after: AuthState,
    username: Seq<char>,
    password: Seq<char>,
    r: AuthServiceResult<()>,
) -> bool {
    let taken = has_username(before.users, username);
    &&& after.dependable == before.dependable
    &&& after.secret == before.secret
    &&& after.may_hash == before.may_hash
    &&& after.may_verify == before.may_verify
    &&& r is Err ==> after.users == before.users
    &&& {
        ||| taken && outcome(r) == Err::<(), AuthServiceErrorView>(
            AuthServiceErrorView::UserAlreadyExists,
        )
        ||| !taken && exists|text: String| #[trigger] hashing_failed(before, password, text, r)
        ||| r is Ok && exists|id: Seq<char>, hash: String| #[trigger]
            stored_with(before, after, username, password, id, hash)
        ||| exists|e: RepositoryError| #[trigger]
            store_failed(r, e) && (!before.dependable || (!taken && !before.has_room
                && e is UnknownError))
    }
}

/// `token` is one that verification under `secret` reads as the claims of
/// a session of the user `id` that started at `now`.
pub open spec fn is_session_token(secret: Seq<char>, token: Seq<char>, id: Seq<char>, now: u64) -> bool {
    session_claims(id, now) matches Some(claims) && reads_as(
        secret,
        token,
        claims.id,
        claims.issued,
        claims.expiration,
    )
}

/// The login found `user` under the name, the hasher said `verdict` of the
/// password against the user's stored hash, and the login ended as
/// [`session_for`] says. A token that it gave is one that verification reads
/// as the claims of the session.
pub open spec fn logs_in(
    service: AuthState,
    username: Seq<char>,
    password: Seq<char>,
    now: u64,
    user: UserView,
    verdict: Result<bool, String>,
    r: AuthServiceResult<String>,
) -> bool {
    &&& service.users.contains(user)
    &&& user.username == username
    &&& (service.may_verify)(user.pw_hash, password, verdict)
    &&& token_outcome(r) == session_for(service.secret, user.id, verdict_view(verdict), now)
    &&& r matches Ok(token) ==> is_session_token(service.secret, token@, user.id, now)
}

/// What `authenticate_user_at(username, password, now)` has done when it
/// returns `r`. One of three things happened:
/// - no user has the name: `UserDoesNotExists`;
/// - a user has the name, the hasher gave its verdict on the password against
///   that user's stored hash, and the login ended as [`session_for`] says;
/// - the store failed, which a dependable store does not, and the error is
///   the store's error in the service's terms.
pub open spec fn login_post(
    service: AuthState,
    username: Seq<char>,
    password: Seq<char>,
    now: u64,
    r: AuthServiceResult<String>,
) -> bool {
    ||| !has_username(service.users, username) && token_outcome(r) == Err::<
        Seq<char>,
        AuthServiceErrorView,
    >(AuthServiceErrorView::UserDoesNotExists)
    ||| exists|user: UserView, verdict: Result<bool, String>| #[trigger]
        logs_in(service, username, password, now, user, verdict, r)
    ||| !service.dependable && exists|e: RepositoryError| #[trigger] store_failed(r, e)
}

/// The outcome `UserDoesNotExists`.
pub open spec fn unknown_user() -> Result<Seq<char>, AuthServiceErrorView> {
    Err(AuthServiceErrorView::UserDoesNotExists)
}

/// Registration and login over a store of users, with a credential hasher
/// and a token codec behind them.
pub trait AuthService: Sized {
    /// What the contracts know of the service.
    spec fn state(&self) -> AuthState;

    /// The service's own consistency, which every operation keeps.
    spec fn wf(&self) -> bool;

    /// Registers a user called `username` with the hash of `password`, unless
    /// the name is taken. See [`registration_post`].
    fn register_user(&mut self, username: &str, password: &str) -> (r: AuthServiceResult<()>)
        requires
            old(self).wf(),
        ensures
            final(self).wf(),
            registration_post(old(self).state(), final(self).state(), username@, password@, r),
    ;

    /// Logs the user called `username` in at the time `now`, and gives the
    /// token of the session. See [`login_post`].
    fn authenticate_user_at(&self, username: &str, password: &str, now: u64) -> (r:
        AuthServiceResult<String>)
        requires
            self.wf(),
        ensures
            login_post(self.state(), username@, password@, now, r),
            self.state().dependable && !has_username(self.state().users, username@)
                ==> token_outcome(r) == unknown_user(),
    ;

    /// Logs the user called `username` in at the time that the clock shows.
    /// The clock is read only once the password has matched, so a login
    /// under a name that no user has, or with a password that does not match,
    /// ends as at any time. Where the clock then stands before the Unix epoch
    /// the session cannot be dated, and the login ends as one whose session
    /// would end beyond the last second that can be written down.
    fn authenticate_user(&self, username: &str, password: &str) -> (r: AuthServiceResult<String>)
        requires
            self.wf(),
        ensures
            exists|now: u64| #[trigger] login_post(self.state(), username@, password@, now, r),
            self.state().dependable && !has_username(self.state().users, username@)
                ==> token_outcome(r) == unknown_user(),
    ;
}

/// With a dependable store, once a name is registered a further registration
/// of it is refused with `UserAlreadyExists`, whatever the password, and
/// leaves every stored user as it is.
pub proof fn lemma_second_registration_is_refused(
    s0: AuthState,
    s1: AuthState,
    s2: AuthState,
    username: Seq<char>,
    first_password: Seq<char>,
    second_password: Seq<char>,
    first: AuthServiceResult<()>,
    second: AuthServiceResult<()>,
)
    requires
        registration_post(s0, s1, username, first_password, first),
        registration_post(s1, s2, username, second_password, second),
        first is Ok,
        s1.dependable,
    ensures
        outcome(second) == Err::<(), AuthServiceErrorView>(AuthServiceErrorView::UserAlreadyExists),
        s2.users == s1.users,
{
    let (id, hash) = choose|id: Seq<char>, hash: String| #[trigger]
        stored_with(s0, s1, username, first_password, id, hash);
    let added = UserView { id, username, pw_hash: hash@ };
    assert(s1.users[s1.users.len() - 1] == added);
    assert(has_username(s1.users, username));
}

/// A registration keeps the names distinct, and the identifiers too.
pub proof fn lemma_registration_keeps_users_distinct(
    before: Seq<UserView>,
    after: Seq<UserView>,
    username: Seq<char>,
    id: Seq<char>,
    pw_hash: Seq<char>,
)
    requires
        is_registration(before, after, username, id, pw_hash),
    ensures
        usernames_distinct(before) ==> usernames_distinct(after),
        ids_distinct(before) ==> ids_distinct(after),
{
}

/// With a dependable store a login succeeds exactly when a user has the
/// name, the hasher finds the password to match that user's stored hash, and
/// the session can be dated and signed. Without such a user it ends with
/// `UserDoesNotExists`, and only then; on a mismatch it ends with
/// `IncorrectPassword`, and only then.
pub proof fn lemma_login_outcomes(
    service: AuthState,
    username: Seq<char>,
    password: Seq<char>,
    now: u64,
    r: AuthServiceResult<String>,
)
    requires
        login_post(service, username, password, now, r),
        service.dependable,
    ensures
        !has_username(service.users, username) <==> token_outcome(r) == Err::<
            Seq<char>,
            AuthServiceErrorView,
        >(AuthServiceErrorView::UserDoesNotExists),
        has_username(service.users, username) ==> exists|
            user: UserView,
            verdict: Result<bool, String>,
        | #[trigger]
            logs_in(service, username, password, now, user, verdict, r) && (r is Ok <==> verdict
                == Ok::<bool, String>(true) && session_for(service.secret, user.id, Ok(true), now)
                is Ok) && (token_outcome(r) == Err::<Seq<char>, AuthServiceErrorView>(
                AuthServiceErrorView::IncorrectPassword,
            ) <==> verdict == Ok::<bool, String>(false)),
{
    if has_username(service.users, username) {
        let (user, verdict) = choose|user: UserView, verdict: Result<bool, String>| #[trigger]
            logs_in(service, username, password, now, user, verdict, r);
        assert(logs_in(service, username, password, now, user, verdict, r));
    } else {
        if exists|user: UserView, verdict: Result<bool, String>| #[trigger]
            logs_in(service, username, password, now, user, verdict, r) {
            let (user, verdict) = choose|user: UserView, verdict: Result<bool, String>| #[trigger]
                logs_in(service, username, password, now, user, verdict, r);
            let i = choose|i: int| 0 <= i < service.users.len() && service.users[i] == user;
            assert(service.users[i].username == username);
        }
    }
}

} // verus!
