//! The page of a user's todos.

use super::{PageResponse, PageView};
use crate::repositories::todo_repository::{todo_views, TodoEntity, TodoRecord, TodoRepository};
use crate::repositories::user_repository::UserEntity;
use crate::services::todo_service::{is_addition, is_listing, TodoService, TodoServiceResult};
use vstd::prelude::*;

verus! {

/// The fields of the form that adds a todo.
#[derive(Debug)]
pub struct CreateTodoFormData {
    pub name: String,
}

/// The page that shows `todos` as the list of the user called `username`.
pub fn show_todos_page(username: &str, todos: Vec<TodoEntity>) -> (r: PageResponse)
    ensures
        r@ == (PageView::TodosPage { username: username@, todos: todo_views(todos@) }),
{
    PageResponse::TodosPage { username: username.to_owned(), todos }
}

/// The answer of the todo page of the user called `username` to a listing
/// that ended with `listed`: the page with the todos that were listed, or a
/// failure that gives nothing away.
pub open spec fn todos_answer(username: Seq<char>, listed: TodoServiceResult<Vec<TodoEntity>>) -> PageView {
    match listed {
        Ok(todos) => PageView::TodosPage { username, todos: todo_views(todos@) },
        Err(_) => PageView::InternalServerError { description: None },
    }
}

/// Answers a request for the todo page from the listing of the todos.
pub fn todos_response(username: &str, listed: TodoServiceResult<Vec<TodoEntity>>) -> (r:
    PageResponse)
    ensures
        r@ == todos_answer(username@, listed),
{
    match listed {
        Ok(todos) => show_todos_page(username, todos),
        Err(_) => PageResponse::InternalServerError { description: None },
    }
}

/// What the todo page has answered to `user` over the records `records`:
/// the page with a listing of that user's todos under that user's name, or,
/// only with a store that is not dependable, a failure that does not say
/// what failed.
pub open spec fn todos_post(
    records: Seq<TodoRecord>,
    dependable: bool,
    user: UserEntity,
    response: PageView,
) -> bool {
    match response {
        PageView::TodosPage { username, todos } => username == user.username@ && is_listing(
            records,
            user.id@,
            todos,
        ),
        PageView::InternalServerError { description } => !dependable && description is None,
        _ => false,
    }
}

/// Handles a request for the todo page of `user`, the user of the session.
pub fn todos_page<T: TodoRepository>(todo_service: &TodoService<T>, user: &UserEntity) -> (r:
    PageResponse)
    requires
        todo_service.wf(),
    ensures
        todos_post(todo_service.todos(), todo_service.repository().dependable(), *user, r@),
{
    todos_response(user.username.as_str(), todo_service.list_todos(user.id.as_str()))
}

/// `after` is `before` with one new open todo `name` of `owner`.
pub open spec fn added_one(
    before: Seq<TodoRecord>,
    after: Seq<TodoRecord>,
    owner: Seq<char>,
    name: Seq<char>,
) -> bool {
    exists|id: Seq<char>| is_addition(before, after, owner, name, id)
}

/// What the handler of a submitted todo has done when it answers `response`
/// and has taken the records from `before` to `after`:
/// - the todo page: the todo was added, and the page holds a listing of the
///   user's todos as they are now, under the user's name;
/// - a failure that does not say what failed: either nothing was added, or
///   the todo was added and could not be listed. A dependable store fails
///   only when it has no room, and then nothing was added.
/// With a dependable store the answer is the todo page exactly when the store
/// had room.
pub open spec fn create_todo_post(
    before: Seq<TodoRecord>,
    after: Seq<TodoRecord>,
    dependable: bool,
    has_room: bool,
    user: UserEntity,
    name: Seq<char>,
    response: PageView,
) -> bool {
    match response {
        PageView::TodosPage { username, todos } => {
            &&& added_one(before, after, user.id@, name)
            &&& username == user.username@
            &&& is_listing(after, user.id@, todos)
            &&& dependable ==> has_room
        },
        PageView::InternalServerError { description } => {
            &&& description is None
            &&& after == before || added_one(before, after, user.id@, name)
            &&& !dependable || (!has_room && after == before)
        },
        _ => false,
    }
}

/// Handles a submitted todo of `user`, the user of the session: adds it and
/// answers with the todo page, which then lists it.
pub fn create_todo_submit<T: TodoRepository>(
    form: &CreateTodoFormData,
    todo_service: &mut TodoService<T>,
    user: &UserEntity,
) -> (r: PageResponse)
    requires
        old(todo_service).wf(),
    ensures
        final(todo_service).wf(),
        final(todo_service).repository().dependable() == old(todo_service).repository().dependable(),
        create_todo_post(
            old(todo_service).todos(),
            final(todo_service).todos(),
            old(todo_service).repository().dependable(),
            old(todo_service).repository().has_room(),
            *user,
            form.name@,
            r@,
        ),
{
    match todo_service.add_todo(user.id.as_str(), form.name.as_str()) {
        Ok(_) => {},
        Err(_) => {
            return PageResponse::InternalServerError { description: None };
        },
    }
    todos_page(todo_service, user)
}

} // verus!
