//! The todo store: what it holds and what each operation promises.

use super::RepositoryResult;
use vstd::prelude::*;

verus! {

/// A todo as the contracts speak of it.
pub struct TodoView {
    pub id: Seq<char>,
    pub name: Seq<char>,
    pub is_complete: bool,
}

/// One item of a user's list.
#[derive(Debug)]
pub struct TodoEntity {
    pub id: String,
    pub name: String,
    pub is_complete: bool,
}

impl View for TodoEntity {
    type V = TodoView;

    open spec fn view(&self) -> TodoView {
        TodoView { id: self.id@, name: self.name@, is_complete: self.is_complete }
    }
}

impl Clone for TodoEntity {
    fn clone(&self) -> (r: Self)
        ensures
            r == *self,
    {
        TodoEntity { id: self.id.clone(), name: self.name.clone(), is_complete: self.is_complete }
    }
}

/// A todo as the store holds it: together with the identifier of the user it
/// belongs to.
pub struct TodoRecord {
    pub owner: Seq<char>,
    pub todo: TodoView,
}

/// The views of a vector of todos, in order.
pub open spec fn todo_views(todos: Seq<TodoEntity>) -> Seq<TodoView> {
    todos.map_values(|t: TodoEntity| t@)
}

/// The test "belongs to `owner`".
pub open spec fn owned_by(owner: Seq<char>) -> spec_fn(TodoRecord) -> bool {
    |r: TodoRecord| r.owner == owner
}

/// The test "is not `owner`'s todo `id`".
pub open spec fn other_than(owner: Seq<char>, id: Seq<char>) -> spec_fn(TodoRecord) -> bool {
    |r: TodoRecord| !(r.owner == owner && r.todo.id == id)
}

/// The todo inside a record.
pub open spec fn todo_of() -> spec_fn(TodoRecord) -> TodoView {
    |r: TodoRecord| r.todo
}

/// The list of `owner`: the todos of the records that belong to `owner`, in
/// the order of the records.
pub open spec fn todos_of(records: Seq<TodoRecord>, owner: Seq<char>) -> Seq<TodoView> {
    records.filter(owned_by(owner)).map_values(todo_of())
}

/// The records without `owner`'s todo `id`.
pub open spec fn without(records: Seq<TodoRecord>, owner: Seq<char>, id: Seq<char>) -> Seq<
    TodoRecord,
> {
    records.filter(other_than(owner, id))
}

/// Whether some record holds a todo with the identifier `id`.
pub open spec fn has_todo_id(records: Seq<TodoRecord>, id: Seq<char>) -> bool {
    exists|i: int| 0 <= i < records.len() && (#[trigger] records[i]).todo.id == id
}

/// No identifier belongs to two todos, whoever owns them.
pub open spec fn todo_ids_distinct(records: Seq<TodoRecord>) -> bool {
    forall|i: int, j: int|
        0 <= i < records.len() && 0 <= j < records.len() && i != j ==> (
        #[trigger] records[i]).todo.id != (#[trigger] records[j]).todo.id
}

/// The record that `add_todo` makes.
pub open spec fn new_record(owner: Seq<char>, id: Seq<char>, name: Seq<char>) -> TodoRecord {
    TodoRecord { owner, todo: TodoView { id, name, is_complete: false } }
}

/// A store of todos, each under the identifier of its owner. `todos` lists
/// the records in the order in which they were added.
pub trait TodoRepository {
    /// The records held.
    spec fn todos(&self) -> Seq<TodoRecord>;

    /// The store's own consistency, which `new` of an implementation sets up
    /// and every operation keeps.
    spec fn wf(&self) -> bool;

    /// Whether this store can be counted on: a dependable store fails in no
    /// listing or removal, and in an addition only when it has no room, and
    /// then with `UnknownError`. A store that rests on a connection which may
    /// break is not dependable.
    spec fn dependable(&self) -> bool;

    /// Whether one more todo can be added.
    spec fn has_room(&self) -> bool;

    /// In a consistent store no identifier occurs twice.
    proof fn lemma_ids_distinct(&self)
        requires
            self.wf(),
        ensures
            todo_ids_distinct(self.todos()),
    ;

    /// Adds an open todo called `name` to the list of `user_id`, under a new
    /// identifier, and returns that identifier. On an error nothing is added.
    fn add_todo(&mut self, user_id: &str, name: &str) -> (r: RepositoryResult<String>)
        requires
            old(self).wf(),
        ensures
            final(self).wf(),
            final(self).dependable() == old(self).dependable(),
            old(self).dependable() ==> (r is Ok <==> old(self).has_room()),
            match r {
                Ok(id) => {
                    &&& !has_todo_id(old(self).todos(), id@)
                    &&& final(self).todos() == old(self).todos().push(
                        new_record(user_id@, id@, name@),
                    )
                },
                Err(e) => {
                    &&& final(self).todos() == old(self).todos()
                    &&& old(self).dependable() ==> e is UnknownError
                },
            },
    ;

    /// The list of `user_id`, in some order. An unknown user has the empty
    /// list.
    fn list_todos(&self, user_id: &str) -> (r: RepositoryResult<Vec<TodoEntity>>)
        requires
            self.wf(),
        ensures
            self.dependable() ==> r is Ok,
            r matches Ok(list) ==> todo_views(list@).to_multiset() == todos_of(
                self.todos(),
                user_id@,
            ).to_multiset(),
    ;

    /// Takes the todo `id` off the list of `user_id`. Where that list has no
    /// such todo nothing changes, and that is no error.
    fn remove_todo(&mut self, user_id: &str, id: &str) -> (r: RepositoryResult<()>)
        requires
            old(self).wf(),
        ensures
            final(self).wf(),
            final(self).dependable() == old(self).dependable(),
            final(self).has_room() == old(self).has_room(),
            old(self).dependable() ==> r is Ok,
            match r {
                Ok(_) => final(self).todos() == without(old(self).todos(), user_id@, id@),
                Err(_) => final(self).todos() == old(self).todos(),
            },
    ;
}

/// Taking records away leaves the identifiers distinct.
pub proof fn lemma_filter_keeps_ids_distinct(
    records: Seq<TodoRecord>,
    keep: spec_fn(TodoRecord) -> bool,
)
    requires
        todo_ids_distinct(records),
    ensures
        todo_ids_distinct(records.filter(keep)),
    decreases records.len(),
{
    reveal(Seq::filter);
    if records.len() > 0 {
        let init = records.drop_last();
        lemma_filter_keeps_ids_distinct(init, keep);
        let kept = init.filter(keep);
        if keep(records.last()) {
            assert forall|i: int| 0 <= i < kept.len() implies (#[trigger] kept[i]).todo.id
                != records.last().todo.id by {
                assert(kept.contains(kept[i]));
                init.lemma_filter_contains_rev(keep, kept[i]);
                let k = choose|k: int| 0 <= k < init.len() && init[k] == kept[i];
                assert(records[k] == init[k]);
                assert(records[records.len() - 1] == records.last());
            }
        }
    }
}

} // verus!
