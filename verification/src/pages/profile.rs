//! The profile page.

use super::{PageResponse, PageView};
use crate::middleware::jwt_session::LOGIN_PATH;
use crate::repositories::user_repository::{has_id, UserEntity, UserRepository, UserView};
use crate::repositories::RepositoryResult;
use crate::utils::token_codec::TokenClaims;
use vstd::prelude::*;
use vstd::string::StringExecFns;

verus! {

/// What the profile page answers to a request without claims.
pub const NO_IDENTITY: &'static str = "Unable to verify identity";

/// What the profile page has answered to a request that came with `claims`,
/// or without any, over the users `users`:
/// - without claims, 401;
/// - with claims that name a user, the profile of such a user;
/// - with claims that name no user, a redirect to the login page;
/// - a failure, only with a store that is not dependable; the answer does not
///   say what failed.
pub open spec fn profile_post(
    users: Seq<UserView>,
    dependable: bool,
    claims: Option<TokenClaims>,
    response: PageView,
) -> bool {
    match response {
        PageView::Unauthorized { message } => claims is None && message == NO_IDENTITY@,
        PageView::ProfilePage { username } => claims matches Some(c) && exists|i: int|
            0 <= i < users.len() && (#[trigger] users[i]).id == c.id@ && users[i].username
                == username,
        PageView::TemporaryRedirect { location } => claims matches Some(c) && !has_id(users, c.id@)
            && location == LOGIN_PATH@,
        PageView::InternalServerError { description } => claims is Some && !dependable
            && description is None,
        _ => false,
    }
}

/// The answer of the profile page to a request without claims: 401.
pub fn no_identity() -> (r: PageResponse)
    ensures
        r@ == (PageView::Unauthorized { message: NO_IDENTITY@ }),
{
    PageResponse::Unauthorized { message: String::from_str(NO_IDENTITY) }
}

/// The answer of the profile page to the lookup of the user that the claims
/// name: the profile of the user that was found, a redirect to the login
/// page where there is no such user, and a failure that gives nothing away
/// where the lookup failed.
pub open spec fn profile_answer(found: RepositoryResult<Option<UserEntity>>) -> PageView {
    match found {
        Ok(Some(user)) => PageView::ProfilePage { username: user.username@ },
        Ok(None) => PageView::TemporaryRedirect { location: LOGIN_PATH@ },
        Err(_) => PageView::InternalServerError { description: None },
    }
}

/// Answers a request for the profile page from the lookup of the user.
pub fn profile_response(found: RepositoryResult<Option<UserEntity>>) -> (r: PageResponse)
    ensures
        r@ == profile_answer(found),
{
    match found {
        Ok(Some(user)) => PageResponse::ProfilePage { username: user.username },
        Ok(None) => PageResponse::TemporaryRedirect { location: String::from_str(LOGIN_PATH) },
        Err(_) => PageResponse::InternalServerError { description: None },
    }
}

/// Handles a request for the profile page. `claims` are the claims of the
/// session that the request came with, if it came with one.
pub fn profile_page<R: UserRepository>(users: &R, claims: Option<&TokenClaims>) -> (r: PageResponse)
    requires
        users.wf(),
    ensures
        profile_post(
            users.users(),
            users.dependable(),
            match claims {
                Some(c) => Some(*c),
                None => None,
            },
            r@,
        ),
{
    let claims = match claims {
        Some(claims) => claims,
        None => {
            return no_identity();
        },
    };
    let found = users.get_user_by_id(claims.id.as_str());
    proof {
        if found matches Ok(Some(_)) {
            let user = found->Ok_0->Some_0;
            let i = choose|i: int| 0 <= i < users.users().len() && users.users()[i] == user@;
            assert(users.users()[i].id == claims.id@);
        }
    }
    profile_response(found)
}

} // verus!
