//! The registration page and what becomes of a registration that was
//! submitted.

use super::login::UNKNOWN_ERROR;
use super::{owned_text, PageResponse, PageView};
use crate::utils::text::optional_view;
use crate::middleware::jwt_session::LOGIN_PATH;
use crate::services::auth_service::{
    outcome, registration_post, AuthService, AuthServiceError, AuthServiceErrorView,
    AuthServiceResult,
};
use vstd::prelude::*;
use vstd::string::StringExecFns;

verus! {

/// What the registration page says when the name is taken.
pub const USER_EXISTS: &'static str = "User already exists";

/// The fields of the registration form.
#[derive(Debug)]
pub struct RegisterFormData {
    pub username: String,
    pub password: String,
}

/// The registration page, with `error` on it if there is one.
pub fn show_register_page(error: Option<&str>) -> (r: PageResponse)
    ensures
        r@ == (PageView::RegisterPage { error: optional_view(error) }),
{
    PageResponse::RegisterPage { error: owned_text(error) }
}

/// The registration page as a visitor first sees it.
pub fn register_page() -> (r: PageResponse)
    ensures
        r@ == (PageView::RegisterPage { error: None }),
{
    show_register_page(None)
}

/// The answer to a registration that ended with `result`: after a success, a
/// redirect to the login page; where the name is taken, the registration
/// page saying so; with any other error, the registration page with a message
/// that gives nothing away.
pub open spec fn register_answer(result: Result<(), AuthServiceErrorView>) -> PageView {
    match result {
        Ok(_) => PageView::Found { location: LOGIN_PATH@, session_token: None },
        Err(AuthServiceErrorView::UserAlreadyExists) => PageView::RegisterPage {
            error: Some(USER_EXISTS@),
        },
        Err(_) => PageView::RegisterPage { error: Some(UNKNOWN_ERROR@) },
    }
}

/// Whatever a registration ended with, the registration page shows at most
/// one of its two fixed messages: the description of an error never reaches
/// the page.
pub proof fn lemma_register_page_gives_nothing_away(result: Result<(), AuthServiceErrorView>)
    ensures
        register_answer(result) matches PageView::RegisterPage { error } ==> error == Some(
            USER_EXISTS@,
        ) || error == Some(UNKNOWN_ERROR@),
        register_answer(result) is RegisterPage <==> result is Err,
{
}

/// Answers a registration that ended with `result`.
pub fn register_response(result: AuthServiceResult<()>) -> (r: PageResponse)
    ensures
        r@ == register_answer(outcome(result)),
{
    match result {
        Ok(_) => PageResponse::Found { location: String::from_str(LOGIN_PATH), session_token: None },
        Err(AuthServiceError::UserAlreadyExists) => show_register_page(Some(USER_EXISTS)),
        Err(_) => show_register_page(Some(UNKNOWN_ERROR)),
    }
}

/// Handles a submitted registration: registers the user and answers as
/// [`register_answer`] says.
pub fn register_submit<S: AuthService>(form: &RegisterFormData, auth_service: &mut S) -> (r:
    PageResponse)
    requires
        old(auth_service).wf(),
    ensures
        final(auth_service).wf(),
        exists|result: AuthServiceResult<()>| #[trigger]
            registration_post(
                old(auth_service).state(),
                final(auth_service).state(),
                form.username@,
                form.password@,
                result,
            ) && r@ == register_answer(outcome(result)),
{
    let result = auth_service.register_user(form.username.as_str(), form.password.as_str());
    let ghost seen = result;
    let r = register_response(result);
    assert(registration_post(
        old(auth_service).state(),
        auth_service.state(),
        form.username@,
        form.password@,
        seen,
    ));
    r
}

} // verus!
