//! Login by name and password for clients that are no browsers.

use super::{PageResponse, PageView};
use crate::repositories::user_repository::has_username;
use crate::services::auth_service::{
    login_post, token_outcome, unknown_user, AuthService, AuthServiceError, AuthServiceErrorView,
    AuthServiceResult,
};
use vstd::prelude::*;
use vstd::string::StringExecFns;

verus! {

/// Where a client goes after logging in this way.
pub const AFTER_BASIC_AUTH_PATH: &'static str = "/home/potato";

/// What is answered to credentials without a password.
pub const CREDENTIALS_MISSING: &'static str = "Must provide username and password";

/// What is answered to a wrong password.
pub const CREDENTIALS_WRONG: &'static str = "Incorrect username or password";

/// What is answered to a name that no user has.
pub const USER_NOT_FOUND: &'static str = "user not found";

/// The answer to a login that ended with `result`: with a token, a redirect
/// that sets the session cookie; with a wrong password, 401; with an unknown
/// name, 500 saying so; with any other error, 500 that does not say what
/// failed: the description of an error never reaches the client.
pub open spec fn basic_auth_answer(result: Result<Seq<char>, AuthServiceErrorView>) -> PageView {
    match result {
        Ok(token) => PageView::Found {
            location: AFTER_BASIC_AUTH_PATH@,
            session_token: Some(token),
        },
        Err(AuthServiceErrorView::IncorrectPassword) => PageView::Unauthorized {
            message: CREDENTIALS_WRONG@,
        },
        Err(AuthServiceErrorView::UserDoesNotExists) => PageView::InternalServerError {
            description: Some(USER_NOT_FOUND@),
        },
        Err(_) => PageView::InternalServerError { description: None },
    }
}

/// Answers a login that ended with `result`.
pub fn basic_auth_response(result: AuthServiceResult<String>) -> (r: PageResponse)
    ensures
        r@ == basic_auth_answer(token_outcome(result)),
{
    match result {
        Ok(token) => PageResponse::Found {
            location: String::from_str(AFTER_BASIC_AUTH_PATH),
            session_token: Some(token),
        },
        Err(AuthServiceError::IncorrectPassword) => PageResponse::Unauthorized {
            message: String::from_str(CREDENTIALS_WRONG),
        },
        Err(AuthServiceError::UserDoesNotExists) => PageResponse::InternalServerError {
            description: Some(String::from_str(USER_NOT_FOUND)),
        },
        Err(_) => PageResponse::InternalServerError { description: None },
    }
}

/// The answer to credentials without a password: 401.
pub fn missing_credentials() -> (r: PageResponse)
    ensures
        r@ == (PageView::Unauthorized { message: CREDENTIALS_MISSING@ }),
{
    PageResponse::Unauthorized { message: String::from_str(CREDENTIALS_MISSING) }
}

/// Handles credentials sent with the request, at the time `now`. Without a
/// password the answer is 401 and nobody is looked up; with one, the user is
/// logged in and the answer is as [`basic_auth_answer`] says.
pub fn basic_auth<S: AuthService>(
    auth_service: &S,
    username: &str,
    password: Option<&str>,
    now: u64,
) -> (r: PageResponse)
    requires
        auth_service.wf(),
    ensures
        match password {
            None => r@ == (PageView::Unauthorized { message: CREDENTIALS_MISSING@ }),
            Some(p) => exists|result: AuthServiceResult<String>| #[trigger]
                login_post(auth_service.state(), username@, p@, now, result) && r@
                    == basic_auth_answer(token_outcome(result)),
        },
        password is Some && auth_service.state().dependable && !has_username(
            auth_service.state().users,
            username@,
        ) ==> r@ == basic_auth_answer(unknown_user()),
{
    match password {
        None => missing_credentials(),
        Some(p) => {
            let result = auth_service.authenticate_user_at(username, p, now);
            let ghost seen = result;
            let r = basic_auth_response(result);
            assert(login_post(auth_service.state(), username@, p@, now, seen));
            r
        },
    }
}

} // verus!
