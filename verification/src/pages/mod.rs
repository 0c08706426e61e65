//! What each page handler answers. A handler decides here which page is
//! shown, with what on it, or where the client is sent; turning that answer
//! into markup and headers is the business of the program around the library.

pub mod basic_auth;
pub mod index;
pub mod login;
pub mod profile;
pub mod register;
pub mod todos;

use crate::repositories::todo_repository::{todo_views, TodoEntity, TodoView};
use crate::utils::text::{option_text, optional_view};
use vstd::prelude::*;

verus! {

/// An answer of a handler as the contracts speak of it.
pub enum PageView {
    Found { location: Seq<char>, session_token: Option<Seq<char>> },
    TemporaryRedirect { location: Seq<char> },
    LoginPage { error: Option<Seq<char>> },
    RegisterPage { error: Option<Seq<char>> },
    ProfilePage { username: Seq<char> },
    TodosPage { username: Seq<char>, todos: Seq<TodoView> },
    Unauthorized { message: Seq<char> },
    InternalServerError { description: Option<Seq<char>> },
}

/// The answer of a handler.
#[derive(Debug)]
pub enum PageResponse {
    /// Status 302 with the header `Location`. Where `session_token` is there,
    /// the answer also sets the session cookie to it, for HTTP only.
    Found { location: String, session_token: Option<String> },
    /// Status 307 with the header `Location`.
    TemporaryRedirect { location: String },
    /// The login page, with a message where the last attempt failed.
    LoginPage { error: Option<String> },
    /// The registration page, with a message where the last attempt failed.
    RegisterPage { error: Option<String> },
    /// The profile of the user called `username`.
    ProfilePage { username: String },
    /// The todo list of the user called `username`.
    TodosPage { username: String, todos: Vec<TodoEntity> },
    /// Status 401 with `message` as a JSON text.
    Unauthorized { message: String },
    /// Status 500, with the description as its body where there is one.
    InternalServerError { description: Option<String> },
}

impl View for PageResponse {
    type V = PageView;

    open spec fn view(&self) -> PageView {
        match self {
            PageResponse::Found { location, session_token } => PageView::Found {
                location: location@,
                session_token: option_text(*session_token),
            },
            PageResponse::TemporaryRedirect { location } => PageView::TemporaryRedirect {
                location: location@,
            },
            PageResponse::LoginPage { error } => PageView::LoginPage { error: option_text(*error) },
            PageResponse::RegisterPage { error } => PageView::RegisterPage {
                error: option_text(*error),
            },
            PageResponse::ProfilePage { username } => PageView::ProfilePage { username: username@ },
            PageResponse::TodosPage { username, todos } => PageView::TodosPage {
                username: username@,
                todos: todo_views(todos@),
            },
            PageResponse::Unauthorized { message } => PageView::Unauthorized { message: message@ },
            PageResponse::InternalServerError { description } => PageView::InternalServerError {
                description: option_text(*description),
            },
        }
    }
}

/// An owned copy of a text that may be missing.
pub fn owned_text(text: Option<&str>) -> (r: Option<String>)
    ensures
        option_text(r) == optional_view(text),
{
    match text {
        Some(t) => Some(t.to_owned()),
        None => None,
    }
}

} // verus!
