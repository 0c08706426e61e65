//! The todo lists of the users, over any todo store.

use crate::repositories::todo_repository::{
    has_todo_id, new_record, owned_by, todo_ids_distinct, todo_of, todo_views, todos_of,
    TodoEntity, TodoRecord, TodoRepository, TodoView,
};
use crate::repositories::{RepositoryError, RepositoryResult};
use crate::utils::text::{debug_format, debug_text, option_text};
use vstd::prelude::*;
use vstd::std_specs::convert::FromSpecImpl;
use vstd::string::StringExecFns;

verus! {

/// What the todo service can report instead of a result.
#[derive(Debug)]
pub enum TodoServiceError {
    DuplicateItem,
    ItemNotFound,
    Unknown { info: Option<String> },
}

pub type TodoServiceResult<T> = Result<T, TodoServiceError>;

impl TodoServiceError {
    /// What `message` gives.
    pub open spec fn message_spec(&self) -> Seq<char> {
        match self {
            TodoServiceError::DuplicateItem => "Duplicate item"@,
            TodoServiceError::ItemNotFound => "Item not found"@,
            TodoServiceError::Unknown { info } => "Unknown error has occurred: "@ + debug_text(
                option_text(*info),
            ),
        }
    }

    /// The error in words. A description is written after them as `Debug`
    /// writes an optional text.
    pub fn message(&self) -> (r: String)
        ensures
            r@ == self.message_spec(),
    {
        match self {
            TodoServiceError::DuplicateItem => String::from_str("Duplicate item"),
            TodoServiceError::ItemNotFound => String::from_str("Item not found"),
            TodoServiceError::Unknown { info } => String::from_str(
                "Unknown error has occurred: ",
            ).concat(debug_format(info).as_str()),
        }
    }
}

/// The error of the service that stands for an error of the store: a
/// description is kept, and the two kinds that carry one both become
/// `Unknown`.
pub open spec fn todo_error(value: RepositoryError) -> TodoServiceError {
    match value {
        RepositoryError::ItemAlreadyExists => TodoServiceError::DuplicateItem,
        RepositoryError::UnknownError { info } => TodoServiceError::Unknown { info },
        RepositoryError::ItemNotFound => TodoServiceError::ItemNotFound,
        RepositoryError::DatabaseConnectionError { info } => TodoServiceError::Unknown { info },
    }
}

impl From<RepositoryError> for TodoServiceError {
    /// Each error of the store becomes one error of the service: the two
    /// kinds that carry a description both become `Unknown`, with the
    /// description kept.
    fn from(value: RepositoryError) -> (r: Self) {
        match value {
            RepositoryError::ItemAlreadyExists => TodoServiceError::DuplicateItem,
            RepositoryError::UnknownError { info } => TodoServiceError::Unknown { info },
            RepositoryError::ItemNotFound => TodoServiceError::ItemNotFound,
            RepositoryError::DatabaseConnectionError { info } => TodoServiceError::Unknown { info },
        }
    }
}

impl FromSpecImpl<RepositoryError> for TodoServiceError {
    open spec fn obeys_from_spec() -> bool {
        true
    }

    open spec fn from_spec(value: RepositoryError) -> Self {
        todo_error(value)
    }
}

/// `after` is `before` with one new open todo `name` of `owner`, under the
/// identifier `id`, which no todo had before.
pub open spec fn is_addition(
    before: Seq<TodoRecord>,
    after: Seq<TodoRecord>,
    owner: Seq<char>,
    name: Seq<char>,
    id: Seq<char>,
) -> bool {
    !has_todo_id(before, id) && after == before.push(new_record(owner, id, name))
}

/// `list` holds what the records give as the list of `owner`, each todo as
/// often as there, in any order.
pub open spec fn is_listing(
    records: Seq<TodoRecord>,
    owner: Seq<char>,
    list: Seq<TodoView>,
) -> bool {
    list.to_multiset() == todos_of(records, owner).to_multiset()
}

/// What the store's answer to an addition means for the service.
pub open spec fn addition_outcome(stored: RepositoryResult<String>) -> TodoServiceResult<()> {
    match stored {
        Ok(_) => Ok(()),
        Err(e) => Err(todo_error(e)),
    }
}

/// Ends an addition with the store's answer to it.
pub fn addition_result(stored: RepositoryResult<String>) -> (r: TodoServiceResult<()>)
    ensures
        r == addition_outcome(stored),
{
    match stored {
        Ok(_) => Ok(()),
        Err(e) => Err(TodoServiceError::from(e)),
    }
}

/// What the store's answer to a listing means for the service.
pub open spec fn listing_outcome(listed: RepositoryResult<Vec<TodoEntity>>) -> TodoServiceResult<
    Vec<TodoEntity>,
> {
    match listed {
        Ok(todos) => Ok(todos),
        Err(e) => Err(todo_error(e)),
    }
}

/// Ends a listing with the store's answer to it.
pub fn listing_result(listed: RepositoryResult<Vec<TodoEntity>>) -> (r: TodoServiceResult<
    Vec<TodoEntity>,
>)
    ensures
        r == listing_outcome(listed),
{
    match listed {
        Ok(todos) => Ok(todos),
        Err(e) => Err(TodoServiceError::from(e)),
    }
}

/// The todo lists, kept in a store of type `R`.
pub struct TodoService<R: TodoRepository> {
    todo_repository: R,
}

impl<R: TodoRepository> TodoService<R> {
    /// The store behind the service.
    pub closed spec fn repository(&self) -> R {
        self.todo_repository
    }

    /// The records in the store.
    pub open spec fn todos(&self) -> Seq<TodoRecord> {
        self.repository().todos()
    }

    /// The service is consistent when its store is.
    pub open spec fn wf(&self) -> bool {
        self.repository().wf()
    }

    /// A service over the given store.
    pub fn new(todo_repository: R) -> (r: Self)
        ensures
            r.repository() == todo_repository,
    {
        Self { todo_repository }
    }

    /// Puts a new open todo called `name` on the list of `user_id`. On an
    /// error nothing is added. With a dependable store the only failure is a
    /// store without room, and the error is then `Unknown`.
    pub fn add_todo(&mut self, user_id: &str, name: &str) -> (r: TodoServiceResult<()>)
        requires
            old(self).wf(),
        ensures
            final(self).wf(),
            final(self).repository().dependable() == old(self).repository().dependable(),
            old(self).repository().dependable() ==> (r is Ok <==> old(self).repository().has_room()),
            match r {
                Ok(_) => exists|id: Seq<char>|
                    is_addition(old(self).todos(), final(self).todos(), user_id@, name@, id),
                Err(e) => {
                    &&& final(self).todos() == old(self).todos()
                    &&& old(self).repository().dependable() ==> e is Unknown
                },
            },
    {
        let stored = self.todo_repository.add_todo(user_id, name);
        proof {
            if stored is Ok {
                let id = stored->Ok_0;
                assert(is_addition(old(self).todos(), self.todos(), user_id@, name@, id@));
            }
        }
        addition_result(stored)
    }

    /// The list of `user_id`, in some order. With a dependable store this
    /// never fails.
    pub fn list_todos(&self, user_id: &str) -> (r: TodoServiceResult<Vec<TodoEntity>>)
        requires
            self.wf(),
        ensures
            self.repository().dependable() ==> r is Ok,
            r matches Ok(list) ==> is_listing(self.todos(), user_id@, todo_views(list@)),
    {
        listing_result(self.todo_repository.list_todos(user_id))
    }
}

/// A todo added for one user leaves the list of every other user as it was.
pub proof fn lemma_addition_leaves_other_lists(
    before: Seq<TodoRecord>,
    after: Seq<TodoRecord>,
    owner: Seq<char>,
    name: Seq<char>,
    id: Seq<char>,
    other: Seq<char>,
)
    requires
        is_addition(before, after, owner, name, id),
        other != owner,
    ensures
        todos_of(after, other) == todos_of(before, other),
{
    before.lemma_filter_push(new_record(owner, id, name), owned_by(other));
}

/// Every todo on the list of a user was added for that user.
pub proof fn lemma_listed_todo_is_own(records: Seq<TodoRecord>, owner: Seq<char>, todo: TodoView)
    requires
        todos_of(records, owner).contains(todo),
    ensures
        records.contains(TodoRecord { owner, todo }),
{
    let mine = records.filter(owned_by(owner));
    let shown = mine.map_values(todo_of());
    let k = choose|k: int| 0 <= k < shown.len() && shown[k] == todo;
    records.lemma_filter_pred(owned_by(owner), k);
    assert(mine[k] == TodoRecord { owner, todo });
    assert(mine.contains(mine[k]));
    records.lemma_filter_contains_rev(owned_by(owner), mine[k]);
}

/// The list of one user never holds a todo that was added for another: with
/// `listed` a listing of `a`, a record of another user `b` is not in it.
pub proof fn lemma_lists_are_separate(
    records: Seq<TodoRecord>,
    a: Seq<char>,
    b: Seq<char>,
    listed: Seq<TodoView>,
    i: int,
)
    requires
        todo_ids_distinct(records),
        is_listing(records, a, listed),
        0 <= i < records.len(),
        records[i].owner == b,
        a != b,
    ensures
        !listed.contains(records[i].todo),
{
    let todo = records[i].todo;
    vstd::seq_lib::to_multiset_contains(listed, todo);
    vstd::seq_lib::to_multiset_contains(todos_of(records, a), todo);
    if todos_of(records, a).contains(todo) {
        lemma_listed_todo_is_own(records, a, todo);
        let own = TodoRecord { owner: a, todo };
        let j = choose|j: int| 0 <= j < records.len() && records[j] == own;
        assert(records[j].todo.id == records[i].todo.id);
        assert(i != j);
    }
}

/// Where no record belongs to a user, none passes the test "belongs to that
/// user".
proof fn lemma_none_owned(records: Seq<TodoRecord>, owner: Seq<char>)
    requires
        forall|i: int| 0 <= i < records.len() ==> (#[trigger] records[i]).owner != owner,
    ensures
        records.filter(owned_by(owner)).len() == 0,
    decreases records.len(),
{
    reveal(Seq::filter);
    if records.len() > 0 {
        let init = records.drop_last();
        assert forall|i: int| 0 <= i < init.len() implies (#[trigger] init[i]).owner != owner by {
            assert(init[i] == records[i]);
        }
        lemma_none_owned(init, owner);
        assert(records.last() == records[records.len() - 1]);
    }
}

/// A user for whom nothing is held has the empty list, however much is held
/// for others: a listing for that user is empty.
pub proof fn lemma_list_without_records_is_empty(
    records: Seq<TodoRecord>,
    owner: Seq<char>,
    listed: Seq<TodoView>,
)
    requires
        forall|i: int| 0 <= i < records.len() ==> (#[trigger] records[i]).owner != owner,
        is_listing(records, owner, listed),
    ensures
        todos_of(records, owner) == Seq::<TodoView>::empty(),
        listed == Seq::<TodoView>::empty(),
{
    lemma_none_owned(records, owner);
    vstd::seq_lib::to_multiset_len(listed);
    vstd::seq_lib::to_multiset_len(todos_of(records, owner));
    assert(todos_of(records, owner) =~= Seq::<TodoView>::empty());
    assert(listed =~= Seq::<TodoView>::empty());
}

/// After a todo was added for a user, a listing for that user holds it, and
/// holds it once.
pub proof fn lemma_added_todo_is_listed_once(
    before: Seq<TodoRecord>,
    after: Seq<TodoRecord>,
    owner: Seq<char>,
    name: Seq<char>,
    id: Seq<char>,
    listed: Seq<TodoView>,
)
    requires
        is_addition(before, after, owner, name, id),
        is_listing(after, owner, listed),
    ensures
        todos_of(after, owner) == todos_of(before, owner).push(new_record(owner, id, name).todo),
        listed.to_multiset().count(new_record(owner, id, name).todo) == 1,
{
    let record = new_record(owner, id, name);
    before.lemma_filter_push(record, owned_by(owner));
    before.filter(owned_by(owner)).lemma_push_map_commute(todo_of(), record);
    let previous = todos_of(before, owner);
    vstd::seq_lib::to_multiset_build(previous, record.todo);
    vstd::seq_lib::to_multiset_contains(previous, record.todo);
    if previous.contains(record.todo) {
        lemma_listed_todo_is_own(before, owner, record.todo);
        let j = choose|j: int| 0 <= j < before.len() && before[j] == record;
        assert(before[j].todo.id == id);
    }
}

} // verus!
