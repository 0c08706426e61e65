//! The login page and what becomes of a login that was submitted.

use super::{owned_text, PageResponse, PageView};
use crate::utils::text::optional_view;
use crate::repositories::user_repository::has_username;
use crate::services::auth_service::{
    login_post, token_outcome, unknown_user, AuthService, AuthServiceError, AuthServiceErrorView,
    AuthServiceResult,
};
use vstd::prelude::*;
use vstd::string::StringExecFns;

verus! {

/// Where a user goes after logging in.
pub const AFTER_LOGIN_PATH: &'static str = "/home/profile";

/// What the login page says when the name or the password is wrong. It does
/// not say which.
pub const BAD_CREDENTIALS: &'static str = "Incorrect username or password";

/// What a form page says of any other failure.
pub const UNKNOWN_ERROR: &'static str = "Unknown error";

/// The fields of the login form.
#[derive(Debug)]
pub struct LoginFormData {
    pub username: String,
    pub password: String,
}

/// The login page, with `error` on it if there is one.
pub fn show_login_page(error: Option<&str>) -> (r: PageResponse)
    ensures
        r@ == (PageView::LoginPage { error: optional_view(error) }),
{
    PageResponse::LoginPage { error: owned_text(error) }
}

/// The login page as a visitor first sees it.
pub fn login_page() -> (r: PageResponse)
    ensures
        r@ == (PageView::LoginPage { error: None }),
{
    show_login_page(None)
}

/// The answer to a login that ended with `result`: with a token, a redirect
/// to the user's profile that sets the session cookie; with a wrong name or a
/// wrong password, the login page with one and the same message; with any
/// other error, the login page with a message that gives nothing away.
pub open spec fn login_answer(result: Result<Seq<char>, AuthServiceErrorView>) -> PageView {
    match result {
        Ok(token) => PageView::Found { location: AFTER_LOGIN_PATH@, session_token: Some(token) },
        Err(AuthServiceErrorView::IncorrectPassword) => PageView::LoginPage {
            error: Some(BAD_CREDENTIALS@),
        },
        Err(AuthServiceErrorView::UserDoesNotExists) => PageView::LoginPage {
            error: Some(BAD_CREDENTIALS@),
        },
        Err(_) => PageView::LoginPage { error: Some(UNKNOWN_ERROR@) },
    }
}

/// Whatever a login ended with, the login page shows at most one of its two
/// fixed messages: the description of an error never reaches the page.
pub proof fn lemma_login_page_gives_nothing_away(result: Result<Seq<char>, AuthServiceErrorView>)
    ensures
        login_answer(result) matches PageView::LoginPage { error } ==> error == Some(
            BAD_CREDENTIALS@,
        ) || error == Some(UNKNOWN_ERROR@),
        login_answer(result) is LoginPage <==> result is Err,
{
}

/// Answers a login that ended with `result`.
pub fn login_response(result: AuthServiceResult<String>) -> (r: PageResponse)
    ensures
        r@ == login_answer(token_outcome(result)),
{
    match result {
        Ok(token) => PageResponse::Found {
            location: String::from_str(AFTER_LOGIN_PATH),
            session_token: Some(token),
        },
        Err(AuthServiceError::IncorrectPassword) => show_login_page(Some(BAD_CREDENTIALS)),
        Err(AuthServiceError::UserDoesNotExists) => show_login_page(Some(BAD_CREDENTIALS)),
        Err(_) => show_login_page(Some(UNKNOWN_ERROR)),
    }
}

/// Handles a submitted login at the time `now`: logs the user in and answers
/// as [`login_answer`] says.
pub fn login_submit_at<S: AuthService>(form: &LoginFormData, auth_service: &S, now: u64) -> (r:
    PageResponse)
    requires
        auth_service.wf(),
    ensures
        exists|result: AuthServiceResult<String>| #[trigger]
            login_post(auth_service.state(), form.username@, form.password@, now, result) && r@
                == login_answer(token_outcome(result)),
        auth_service.state().dependable && !has_username(
            auth_service.state().users,
            form.username@,
        ) ==> r@ == login_answer(unknown_user()),
{
    let result = auth_service.authenticate_user_at(
        form.username.as_str(),
        form.password.as_str(),
        now,
    );
    let ghost seen = result;
    let r = login_response(result);
    assert(login_post(auth_service.state(), form.username@, form.password@, now, seen));
    r
}

/// Handles a submitted login at the time that the clock shows. The clock
/// plays no part unless the password matched.
pub fn login_submit<S: AuthService>(form: &LoginFormData, auth_service: &S) -> (r: PageResponse)
    requires
        auth_service.wf(),
    ensures
        exists|now: u64, result: AuthServiceResult<String>| #[trigger]
            login_post(auth_service.state(), form.username@, form.password@, now, result) && r@
                == login_answer(token_outcome(result)),
        auth_service.state().dependable && !has_username(
            auth_service.state().users,
            form.username@,
        ) ==> r@ == login_answer(unknown_user()),
{
    let result = auth_service.authenticate_user(form.username.as_str(), form.password.as_str());
    let ghost seen = result;
    let r = login_response(result);
    proof {
        let now = choose|now: u64| #[trigger]
            login_post(auth_service.state(), form.username@, form.password@, now, seen);
        assert(login_post(auth_service.state(), form.username@, form.password@, now, seen));
    }
    r
}

} // verus!
