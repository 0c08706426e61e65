//! The front door.

use super::{PageResponse, PageView};
use crate::middleware::jwt_session::LOGIN_PATH;
use vstd::prelude::*;
use vstd::string::StringExecFns;

verus! {

/// The front door sends everyone to the login page.
pub fn index_redirect() -> (r: PageResponse)
    ensures
        r@ == (PageView::Found { location: LOGIN_PATH@, session_token: None }),
{
    PageResponse::Found { location: String::from_str(LOGIN_PATH), session_token: None }
}

} // verus!
