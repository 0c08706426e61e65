//! The session guard. It stands in front of the protected pages and decides,
//! for each request, whether it goes on to the page or is turned away:
//! 1. the request must bring a session token, in the session cookie or, for
//!    clients that are no browsers, in the header `Authorization`;
//! 2. the token must verify, and the session must not have ended;
//! 3. the user that the token names must be in the store.
//! A request that passes goes on with that user attached. Any other is turned
//! away: sent to the login page where the token travels in the cookie, and
//! answered with 401 and a challenge where it travels in the header.

use crate::repositories::user_repository::{has_id, ids_distinct, UserEntity, UserRepository, UserView};
use crate::repositories::{RepositoryError, RepositoryResult};
use crate::services::auth_service::{
    is_session_token, login_post, logs_in, AuthServiceResult, AuthState,
};
use crate::utils::clock::now;
use crate::utils::global_auth::session_seconds;
use crate::utils::text::{option_text, optional_view};
use crate::utils::token_codec::{checked_claims, verified_claims, TokenCodec};
use vstd::prelude::*;
use vstd::string::{StrSliceExecFns, StringExecFns};

verus! {

/// Where a request without a valid session is sent.
pub const LOGIN_PATH: &'static str = "/login";

/// What precedes the token in the header `Authorization`.
pub const BEARER_PREFIX: &'static str = "Bearer ";

/// The challenge that goes out with a 401, in the header `WWW-Authenticate`.
pub const BEARER_CHALLENGE: &'static str = "Bearer";

/// How the session token travels.
#[derive(Debug, Clone, Copy, PartialEq, Eq, Structural)]
pub enum SessionTransport {
    /// In the session cookie, as a browser sends it.
    Cookie,
    /// In the header `Authorization`, after the word `Bearer`.
    Bearer,
}

/// What the guard does with a request.
#[derive(Debug)]
pub enum SessionDecision {
    /// The request goes on to the page, with the user of the session
    /// attached.
    Forward { user: UserEntity },
    /// The request is answered with a redirect to `location`, the login
    /// page.
    Redirect { location: String },
    /// The request is answered with 401 and the challenge `challenge`.
    Unauthorized { challenge: String },
    /// The store failed when asked for the user, and nothing was decided.
    StoreFailed { error: RepositoryError },
}

/// Whether `decision` is how a request is turned away whose token travels by
/// `transport`.
pub open spec fn is_rejection(transport: SessionTransport, decision: SessionDecision) -> bool {
    match transport {
        SessionTransport::Cookie => decision matches SessionDecision::Redirect { location }
            && location@ == LOGIN_PATH@,
        SessionTransport::Bearer => decision matches SessionDecision::Unauthorized { challenge }
            && challenge@ == BEARER_CHALLENGE@,
    }
}

/// What the guard has decided for a request that brought `token`, at the time
/// `now`, over the users `users` and with sessions signed under `secret`:
/// - it forwards exactly where the token verifies as a session that has not
///   ended and a user has the identifier that the session names, and it
///   attaches such a user;
/// - it turns the request away where there is no token, where the token does
///   not verify or the session has ended, and where no user has the
///   identifier;
/// - it reports a failure of the store only with a store that is not
///   dependable, and only for a token that verifies.
pub open spec fn guard_post(
    secret: Seq<char>,
    users: Seq<UserView>,
    dependable: bool,
    transport: SessionTransport,
    token: Option<Seq<char>>,
    now: u64,
    decision: SessionDecision,
) -> bool {
    match decision {
        SessionDecision::Forward { user } => {
            &&& token matches Some(t)
            &&& checked_claims(verified_claims(secret, t), now) matches Ok(claims)
            &&& users.contains(user@)
            &&& user@.id == claims.id
        },
        SessionDecision::StoreFailed { .. } => {
            &&& !dependable
            &&& token matches Some(t)
            &&& checked_claims(verified_claims(secret, t), now) is Ok
        },
        _ => {
            &&& is_rejection(transport, decision)
            &&& token matches Some(t) ==> (checked_claims(verified_claims(secret, t), now) matches Ok(
                claims,
            ) ==> !has_id(users, claims.id))
        },
    }
}

/// Turns a request away whose token travels by `transport`.
pub fn reject(transport: SessionTransport) -> (r: SessionDecision)
    ensures
        is_rejection(transport, r),
{
    match transport {
        SessionTransport::Cookie => SessionDecision::Redirect {
            location: String::from_str(LOGIN_PATH),
        },
        SessionTransport::Bearer => SessionDecision::Unauthorized {
            challenge: String::from_str(BEARER_CHALLENGE),
        },
    }
}

/// The redirect to the login page.
pub fn redirect_to_login() -> (r: SessionDecision)
    ensures
        r matches SessionDecision::Redirect { location } && location@ == LOGIN_PATH@,
{
    reject(SessionTransport::Cookie)
}

/// Decides for a request whose token verified, from the lookup of the user
/// that its session names: the request goes on with the user that was found,
/// is turned away where there is no such user, and stays undecided where the
/// lookup failed.
pub fn decide_for_user(
    transport: SessionTransport,
    found: RepositoryResult<Option<UserEntity>>,
) -> (decision: SessionDecision)
    ensures
        match found {
            Ok(Some(user)) => decision == (SessionDecision::Forward { user }),
            Ok(None) => is_rejection(transport, decision),
            Err(error) => decision == (SessionDecision::StoreFailed { error }),
        },
{
    match found {
        Ok(Some(user)) => SessionDecision::Forward { user },
        Ok(None) => reject(transport),
        Err(error) => SessionDecision::StoreFailed { error },
    }
}

/// The token in a value of the header `Authorization`: what follows the
/// prefix `Bearer `, where the value begins with it.
pub open spec fn bearer_token_of(authorization: Seq<char>) -> Option<Seq<char>> {
    if BEARER_PREFIX@.is_prefix_of(authorization) {
        Some(authorization.skip(BEARER_PREFIX@.len() as int))
    } else {
        None
    }
}

/// Takes the token out of a value of the header `Authorization`.
pub fn bearer_token(authorization: &str) -> (r: Option<String>)
    ensures
        option_text(r) == bearer_token_of(authorization@),
{
    proof {
        reveal_strlit("Bearer ");
    }
    let prefix = BEARER_PREFIX;
    let prefix_len = prefix.unicode_len();
    let len = authorization.unicode_len();
    if len < prefix_len {
        return None;
    }
    let mut i: usize = 0;
    while i < prefix_len
        invariant
            i <= prefix_len,
            prefix@ == BEARER_PREFIX@,
            prefix_len == prefix@.len(),
            prefix_len <= len,
            len == authorization@.len(),
            forall|j: int| 0 <= j < i ==> authorization@[j] == prefix@[j],
        decreases prefix_len - i,
    {
        if authorization.get_char(i) != prefix.get_char(i) {
            proof {
                if prefix@.is_prefix_of(authorization@) {
                    assert(authorization@.subrange(0, prefix@.len() as int)[i as int]
                        == prefix@[i as int]);
                }
            }
            return None;
        }
        i += 1;
    }
    assert(authorization@.subrange(0, prefix@.len() as int) =~= prefix@);
    let token = authorization.substring_char(prefix_len, len);
    assert(token@ =~= authorization@.skip(prefix@.len() as int));
    Some(token.to_owned())
}

/// The session guard.
pub struct JwtSession;

impl JwtSession {
    /// Decides at the time `now` for a request that brought `token`, or
    /// brought none, by the given transport.
    pub fn authorize_by<R: UserRepository>(
        &self,
        transport: SessionTransport,
        codec: &TokenCodec,
        users: &R,
        token: Option<&str>,
        now: u64,
    ) -> (decision: SessionDecision)
        requires
            users.wf(),
        ensures
            guard_post(
                codec.secret(),
                users.users(),
                users.dependable(),
                transport,
                optional_view(token),
                now,
                decision,
            ),
    {
        let token = match token {
            Some(token) => token,
            None => {
                return reject(transport);
            },
        };
        let claims = match codec.verify(token, now) {
            Ok(claims) => claims,
            Err(_) => {
                return reject(transport);
            },
        };
        decide_for_user(transport, users.get_user_by_id(claims.id.as_str()))
    }

    /// Decides at the time `now` for a request that brought `token` in its
    /// session cookie, or brought none.
    pub fn authorize<R: UserRepository>(
        &self,
        codec: &TokenCodec,
        users: &R,
        token: Option<&str>,
        now: u64,
    ) -> (decision: SessionDecision)
        requires
            users.wf(),
        ensures
            guard_post(
                codec.secret(),
                users.users(),
                users.dependable(),
                SessionTransport::Cookie,
                optional_view(token),
                now,
                decision,
            ),
    {
        self.authorize_by(SessionTransport::Cookie, codec, users, token, now)
    }

    /// Decides at the time `now` for a request that came with the header
    /// `Authorization` set to `authorization`, or came without it. A value
    /// that does not begin with `Bearer ` counts as no token.
    pub fn authorize_bearer<R: UserRepository>(
        &self,
        codec: &TokenCodec,
        users: &R,
        authorization: Option<&str>,
        now: u64,
    ) -> (decision: SessionDecision)
        requires
            users.wf(),
        ensures
            guard_post(
                codec.secret(),
                users.users(),
                users.dependable(),
                SessionTransport::Bearer,
                match authorization {
                    Some(value) => bearer_token_of(value@),
                    None => None,
                },
                now,
                decision,
            ),
    {
        let token = match authorization {
            Some(value) => bearer_token(value),
            None => None,
        };
        match token {
            Some(token) => self.authorize_by(
                SessionTransport::Bearer,
                codec,
                users,
                Some(token.as_str()),
                now,
            ),
            None => self.authorize_by(SessionTransport::Bearer, codec, users, None, now),
        }
    }

    /// Decides, for a token in the session cookie, at the time that the clock
    /// shows. A clock that stands before the Unix epoch counts as standing at
    /// it: no session has ended by then.
    pub fn authorize_now<R: UserRepository>(
        &self,
        codec: &TokenCodec,
        users: &R,
        token: Option<&str>,
    ) -> (decision: SessionDecision)
        requires
            users.wf(),
        ensures
            exists|now: u64| #[trigger]
                guard_post(
                    codec.secret(),
                    users.users(),
                    users.dependable(),
                    SessionTransport::Cookie,
                    optional_view(token),
                    now,
                    decision,
                ),
    {
        let time = match now() {
            Some(time) => time,
            None => 0,
        };
        self.authorize(codec, users, token, time)
    }
}

/// What comes back from a service that stands behind the guard. Both ways
/// out have this one type, whatever the service answers with.
#[derive(Debug)]
pub enum GuardedResponse<B> {
    /// The request went on, and this is the answer of the service, as the
    /// service gave it.
    Passed { response: B },
    /// The request did not go on, and this is what the guard decided
    /// instead: never `Forward`.
    Stopped { decision: SessionDecision },
}

/// A service with the guard in front of it. The service is a function that
/// takes the user of the session and gives the answer to the request.
pub struct JwtSessionMiddleware<S> {
    service: S,
}

impl JwtSession {
    /// Puts the guard in front of `service`.
    pub fn new_transform<S>(&self, service: S) -> (r: JwtSessionMiddleware<S>)
        ensures
            r.service() == service,
    {
        JwtSessionMiddleware { service }
    }
}

impl<S> JwtSessionMiddleware<S> {
    /// The service behind the guard.
    pub closed spec fn service(&self) -> S {
        self.service
    }

    /// Whether `response` is an answer that the service may give to a
    /// request of `user`.
    pub open spec fn serves<B>(&self, user: UserEntity, response: B) -> bool where
        S: Fn(UserEntity) -> B,
     {
        call_ensures(self.service(), (user,), response)
    }

    /// Handles, at the time `now`, a request that brought `token` in its
    /// session cookie, or brought none. Where the guard forwards, the service
    /// is called once, with the user that the guard attached, and its answer
    /// comes back untouched. Where the guard does not forward, the service is
    /// not called, and the guard's decision comes back.
    pub fn call<R: UserRepository, B>(
        &self,
        codec: &TokenCodec,
        users: &R,
        token: Option<&str>,
        now: u64,
    ) -> (r: GuardedResponse<B>) where S: Fn(UserEntity) -> B
        requires
            users.wf(),
            forall|user: UserEntity| call_requires(self.service(), (user,)),
        ensures
            r matches GuardedResponse::Passed { response } ==> exists|user: UserEntity|
                #[trigger] self.serves(user, response) && guard_post(
                    codec.secret(),
                    users.users(),
                    users.dependable(),
                    SessionTransport::Cookie,
                    optional_view(token),
                    now,
                    SessionDecision::Forward { user },
                ),
            r matches GuardedResponse::Stopped { decision } ==> !(decision is Forward)
                && guard_post(
                codec.secret(),
                users.users(),
                users.dependable(),
                SessionTransport::Cookie,
                optional_view(token),
                now,
                decision,
            ),
    {
        match JwtSession.authorize(codec, users, token, now) {
            SessionDecision::Forward { user } => {
                let service = &self.service;
                assert(call_requires(self.service(), (user,)));
                let ghost attached = user;
                let response = service(user);
                let r = GuardedResponse::Passed { response };
                assert(r matches GuardedResponse::Passed { response: given } && self.serves(
                    attached,
                    given,
                ) && guard_post(
                    codec.secret(),
                    users.users(),
                    users.dependable(),
                    SessionTransport::Cookie,
                    optional_view(token),
                    now,
                    SessionDecision::Forward { user: attached },
                ));
                r
            },
            SessionDecision::Redirect { location } => GuardedResponse::Stopped {
                decision: SessionDecision::Redirect { location },
            },
            SessionDecision::Unauthorized { challenge } => GuardedResponse::Stopped {
                decision: SessionDecision::Unauthorized { challenge },
            },
            SessionDecision::StoreFailed { error } => GuardedResponse::Stopped {
                decision: SessionDecision::StoreFailed { error },
            },
        }
    }
}

/// A request without a token is turned away.
pub proof fn lemma_no_token_is_turned_away(
    secret: Seq<char>,
    users: Seq<UserView>,
    dependable: bool,
    transport: SessionTransport,
    now: u64,
    decision: SessionDecision,
)
    requires
        guard_post(secret, users, dependable, transport, None, now, decision),
    ensures
        is_rejection(transport, decision),
{
}

/// The token that a login gave lets its bearer pass as the user that logged in,
/// from the second of the login up to and including the second in which the
/// session ends; after that its bearer is turned away.
/// This holds with a dependable store in which no identifier occurs twice.
pub proof fn lemma_issued_token_is_admitted(
    service: AuthState,
    username: Seq<char>,
    password: Seq<char>,
    issued: u64,
    login: AuthServiceResult<String>,
    transport: SessionTransport,
    now: u64,
    decision: SessionDecision,
)
    requires
        login_post(service, username, password, issued, login),
        login is Ok,
        service.dependable,
        ids_distinct(service.users),
        guard_post(
            service.secret,
            service.users,
            service.dependable,
            transport,
            Some(login->Ok_0@),
            now,
            decision,
        ),
    ensures
        issued + session_seconds() <= u64::MAX,
        now <= issued + session_seconds() ==> (decision matches SessionDecision::Forward { user }
            && user@.username == username && service.users.contains(user@)),
        now > issued + session_seconds() ==> is_rejection(transport, decision),
{
    let token = login->Ok_0;
    let (user, verdict) = choose|user: UserView, verdict: Result<bool, String>| #[trigger]
        logs_in(service, username, password, issued, user, verdict, login);
    assert(is_session_token(service.secret, token@, user.id, issued));
    if now <= issued + session_seconds() {
        let i = choose|i: int| 0 <= i < service.users.len() && service.users[i] == user;
        assert(service.users[i].id == user.id);
        if let SessionDecision::Forward { user: admitted } = decision {
            let j = choose|j: int| 0 <= j < service.users.len() && service.users[j] == admitted@;
            assert(service.users[i].id == service.users[j].id);
        }
    }
}

} // verus!
