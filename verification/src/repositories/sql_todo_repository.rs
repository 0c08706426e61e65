//! A todo as a row of the table `Todos(id, user_id, name, complete)`.

use super::todo_repository::TodoEntity;
use vstd::prelude::*;
use vstd::std_specs::convert::FromSpecImpl;

verus! {

/// One row of the table of todos.
#[derive(Debug)]
pub struct TodoRow {
    pub id: String,
    pub user_id: String,
    pub name: String,
    pub complete: bool,
}

impl From<TodoRow> for TodoEntity {
    /// The todo that the row stands for. The owner is not part of it.
    fn from(value: TodoRow) -> (r: Self) {
        TodoEntity { id: value.id, name: value.name, is_complete: value.complete }
    }
}

impl FromSpecImpl<TodoRow> for TodoEntity {
    open spec fn obeys_from_spec() -> bool {
        true
    }

    open spec fn from_spec(value: TodoRow) -> Self {
        TodoEntity { id: value.id, name: value.name, is_complete: value.complete }
    }
}

} // verus!
