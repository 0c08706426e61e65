//! The todo store kept in memory.

use super::todo_repository::{
    lemma_filter_keeps_ids_distinct, new_record, other_than, owned_by, todo_ids_distinct, todo_of,
    todo_views, todos_of, without, TodoEntity, TodoRecord, TodoRepository,
};
use super::{RepositoryError, RepositoryResult};
use crate::utils::sequence_id::{decimal, SequenceId};
use vstd::prelude::*;
use vstd::string::StringExecFns;

verus! {

/// What the store says when its counter of identifiers is used up.
pub const NO_ROOM_FOR_TODO: &'static str = "no identifier is left for a new todo";

/// A todo and the user it belongs to.
struct OwnedTodo {
    owner: String,
    todo: TodoEntity,
}

impl View for OwnedTodo {
    type V = TodoRecord;

    closed spec fn view(&self) -> TodoRecord {
        TodoRecord { owner: self.owner@, todo: self.todo@ }
    }
}

/// Todos of all users in one vector, in the order in which they were added,
/// with identifiers drawn from a counter. Nothing outlives the value; sharing
/// it between threads is the owner's business.
///
/// A vector, and not a hash map of hash maps keyed by owner and identifier:
/// of a std map with `String` keys Verus proves nothing, not even its length
/// after one insert. What the maps would give, that no identifier occurs
/// twice and that each todo has one owner, is part of `wf` and of the record.
pub struct InMemoryTodoRepository {
    todos: Vec<OwnedTodo>,
    ids: SequenceId,
}

impl InMemoryTodoRepository {
    /// How many todos were ever added here.
    pub closed spec fn created(&self) -> nat {
        self.ids.issued()
    }

    /// An empty store.
    pub fn new() -> (r: Self)
        ensures
            r.wf(),
            r.todos() == Seq::<TodoRecord>::empty(),
            r.created() == 0,
            r.dependable(),
            r.has_room(),
    {
        let r = InMemoryTodoRepository { todos: Vec::new(), ids: SequenceId::new() };
        assert(r.todos() =~= Seq::<TodoRecord>::empty());
        r
    }

    /// An empty store whose identifiers start at `count`, as if that many
    /// todos had been added and were gone. It has room for the todos up to the
    /// end of the counter.
    pub fn starting_at(count: u64) -> (r: Self)
        ensures
            r.wf(),
            r.todos() == Seq::<TodoRecord>::empty(),
            r.created() == count,
            r.dependable(),
    {
        let r = InMemoryTodoRepository { todos: Vec::new(), ids: SequenceId::starting_at(count) };
        assert(r.todos() =~= Seq::<TodoRecord>::empty());
        r
    }
}

impl TodoRepository for InMemoryTodoRepository {
    closed spec fn todos(&self) -> Seq<TodoRecord> {
        self.todos@.map_values(|t: OwnedTodo| t@)
    }

    closed spec fn wf(&self) -> bool {
        &&& forall|i: int|
            0 <= i < self.todos@.len() ==> self.ids.has_issued((#[trigger] self.todos@[i]).todo.id@)
        &&& todo_ids_distinct(self.todos())
    }

    /// Always.
    open spec fn dependable(&self) -> bool {
        true
    }

    /// Until the counter of identifiers is used up.
    open spec fn has_room(&self) -> bool {
        self.created() < u64::MAX
    }

    proof fn lemma_ids_distinct(&self) {
    }

    /// Where no room is left the error is `UnknownError`. The identifier is
    /// the number of todos added before, in decimal.
    fn add_todo(&mut self, user_id: &str, name: &str) -> (r: RepositoryResult<String>)
        ensures
            r matches Ok(id) ==> id@ == decimal(old(self).created()) && final(self).created()
                == old(self).created() + 1,
            r matches Err(e) ==> (e matches RepositoryError::UnknownError { info: Some(text) }
                && text@ == NO_ROOM_FOR_TODO@ && final(self).created() == old(self).created()),
    {
        let id = match self.ids.fresh() {
            Some(id) => id,
            None => {
                return Err(
                    RepositoryError::UnknownError {
                        info: Some(String::from_str(NO_ROOM_FOR_TODO)),
                    },
                );
            },
        };
        let record = OwnedTodo {
            owner: user_id.to_owned(),
            todo: TodoEntity { id: id.clone(), name: name.to_owned(), is_complete: false },
        };
        proof {
            assert forall|i: int| 0 <= i < self.todos().len() implies (
            #[trigger] self.todos()[i]).todo.id != id@ by {
                assert(old(self).ids.has_issued(self.todos@[i].todo.id@));
            }
        }
        self.todos.push(record);
        proof {
            assert(self.todos() =~= old(self).todos().push(new_record(user_id@, id@, name@)));
        }
        Ok(id)
    }

    /// Lists the todos in the order in which they were added.
    fn list_todos(&self, user_id: &str) -> (r: RepositoryResult<Vec<TodoEntity>>)
        ensures
            r matches Ok(list) && todo_views(list@) == todos_of(self.todos(), user_id@),
    {
        let owner = user_id.to_owned();
        let mut list: Vec<TodoEntity> = Vec::new();
        let mut i: usize = 0;
        assert(self.todos().take(0) =~= Seq::<TodoRecord>::empty());
        assert(todo_views(list@) =~= todos_of(self.todos().take(0), user_id@));
        while i < self.todos.len()
            invariant
                i <= self.todos@.len(),
                owner@ == user_id@,
                todo_views(list@) == todos_of(self.todos().take(i as int), user_id@),
            decreases self.todos@.len() - i,
        {
            let ghost before = self.todos().take(i as int);
            let ghost record = self.todos()[i as int];
            proof {
                assert(self.todos().take(i + 1) =~= before.push(record));
                before.lemma_filter_push(record, owned_by(user_id@));
                before.filter(owned_by(user_id@)).lemma_push_map_commute(todo_of(), record);
            }
            if self.todos[i].owner == owner {
                let ghost shown = todo_views(list@);
                let item = self.todos[i].todo.clone();
                list.push(item);
                assert(todo_views(list@) =~= shown.push(record.todo));
            }
            i += 1;
        }
        assert(self.todos().take(i as int) =~= self.todos());
        Ok(list)
    }

    /// Does not give the identifier free again.
    fn remove_todo(&mut self, user_id: &str, id: &str) -> (r: RepositoryResult<()>)
        ensures
            final(self).created() == old(self).created(),
    {
        let owner = user_id.to_owned();
        let wanted = id.to_owned();
        let mut kept: Vec<OwnedTodo> = Vec::new();
        let mut i: usize = 0;
        let ghost all = self.todos();
        assert(all.take(0) =~= Seq::<TodoRecord>::empty());
        assert(kept@.map_values(|t: OwnedTodo| t@) =~= without(all.take(0), user_id@, id@));
        while i < self.todos.len()
            invariant
                i <= self.todos@.len(),
                owner@ == user_id@,
                wanted@ == id@,
                all == self.todos(),
                kept@.map_values(|t: OwnedTodo| t@) == without(all.take(i as int), user_id@, id@),
                forall|k: int|
                    0 <= k < kept@.len() ==> self.ids.has_issued((#[trigger] kept@[k]).todo.id@),
                forall|k: int|
                    0 <= k < self.todos@.len() ==> self.ids.has_issued(
                        (#[trigger] self.todos@[k]).todo.id@,
                    ),
            decreases self.todos@.len() - i,
        {
            let ghost before = all.take(i as int);
            let ghost record = all[i as int];
            proof {
                assert(all.take(i + 1) =~= before.push(record));
                before.lemma_filter_push(record, other_than(user_id@, id@));
            }
            let drop = self.todos[i].owner == owner && self.todos[i].todo.id == wanted;
            if !drop {
                let ghost shown = kept@.map_values(|t: OwnedTodo| t@);
                let copy = OwnedTodo {
                    owner: self.todos[i].owner.clone(),
                    todo: self.todos[i].todo.clone(),
                };
                kept.push(copy);
                assert(kept@.map_values(|t: OwnedTodo| t@) =~= shown.push(record));
            }
            i += 1;
        }
        proof {
            assert(all.take(i as int) =~= all);
            lemma_filter_keeps_ids_distinct(all, other_than(user_id@, id@));
        }
        self.todos = kept;
        Ok(())
    }
}

} // verus!
