use todo_auth::repositories::in_memory_todo_repository::{InMemoryTodoRepository, NO_ROOM_FOR_TODO};
use todo_auth::repositories::sql_todo_repository::TodoRow;
use todo_auth::repositories::todo_repository::{TodoEntity, TodoRepository};
use todo_auth::services::todo_service::{
    addition_result, listing_result, TodoService, TodoServiceError,
};
use todo_auth::repositories::RepositoryError;

#[test]
fn unknown_user_has_the_empty_list() {
    let store = InMemoryTodoRepository::new();
    assert!(store.list_todos("nobody").unwrap().is_empty());
}

#[test]
fn added_todo_is_open_and_listed() {
    let mut store = InMemoryTodoRepository::new();
    let id = store.add_todo("u1", "buy milk").unwrap();
    assert_eq!(id, "0");
    let list = store.list_todos("u1").unwrap();
    assert_eq!(list.len(), 1);
    assert_eq!(list[0].id, "0");
    assert_eq!(list[0].name, "buy milk");
    assert!(!list[0].is_complete);
}

#[test]
fn lists_keep_the_order_of_addition() {
    let mut store = InMemoryTodoRepository::new();
    store.add_todo("u1", "a").unwrap();
    store.add_todo("u2", "b").unwrap();
    store.add_todo("u1", "c").unwrap();
    let names: Vec<String> = store.list_todos("u1").unwrap().into_iter().map(|t| t.name).collect();
    assert_eq!(names, vec!["a".to_owned(), "c".to_owned()]);
    let ids: Vec<String> = store.list_todos("u1").unwrap().into_iter().map(|t| t.id).collect();
    assert_eq!(ids, vec!["0".to_owned(), "2".to_owned()]);
}

#[test]
fn list_of_one_owner_never_shows_todos_of_another() {
    let mut store = InMemoryTodoRepository::new();
    store.add_todo("a", "for a").unwrap();
    let before: Vec<String> = store.list_todos("a").unwrap().into_iter().map(|t| t.id).collect();
    let theirs = store.add_todo("b", "for b").unwrap();
    let after = store.list_todos("a").unwrap();
    let after_ids: Vec<String> = after.iter().map(|t| t.id.clone()).collect();
    assert_eq!(before, after_ids);
    assert!(after.iter().all(|t| t.id != theirs && t.name != "for b"));
    let b = store.list_todos("b").unwrap();
    assert_eq!(b.len(), 1);
    assert_eq!(b[0].name, "for b");
}

#[test]
fn added_todo_is_listed_exactly_once() {
    let mut store = InMemoryTodoRepository::new();
    store.add_todo("a", "same name").unwrap();
    store.add_todo("b", "same name").unwrap();
    let id = store.add_todo("a", "same name").unwrap();
    let list = store.list_todos("a").unwrap();
    assert_eq!(list.iter().filter(|t| t.id == id).count(), 1);
    assert_eq!(list.len(), 2);
}

#[test]
fn removed_todo_leaves_the_list() {
    let mut store = InMemoryTodoRepository::new();
    store.add_todo("a", "one").unwrap();
    store.add_todo("a", "two").unwrap();
    store.remove_todo("a", "0").unwrap();
    let list = store.list_todos("a").unwrap();
    assert_eq!(list.len(), 1);
    assert_eq!(list[0].id, "1");
    assert_eq!(list[0].name, "two");
}

#[test]
fn removing_what_is_not_there_changes_nothing() {
    let mut store = InMemoryTodoRepository::new();
    store.add_todo("a", "one").unwrap();
    assert!(store.remove_todo("a", "17").is_ok());
    assert!(store.remove_todo("nobody", "0").is_ok());
    let list = store.list_todos("a").unwrap();
    assert_eq!(list.len(), 1);
    assert_eq!(list[0].id, "0");
}

#[test]
fn only_the_owner_can_remove_a_todo() {
    let mut store = InMemoryTodoRepository::new();
    store.add_todo("a", "mine").unwrap();
    store.remove_todo("b", "0").unwrap();
    assert_eq!(store.list_todos("a").unwrap().len(), 1);
}

#[test]
fn removed_identifier_is_not_given_out_again() {
    let mut store = InMemoryTodoRepository::new();
    assert_eq!(store.add_todo("a", "one").unwrap(), "0");
    store.remove_todo("a", "0").unwrap();
    assert_eq!(store.add_todo("a", "two").unwrap(), "1");
}

#[test]
fn todo_clone_keeps_every_field() {
    let todo = TodoEntity { id: "3".to_owned(), name: "n".to_owned(), is_complete: true };
    let copy = todo.clone();
    assert_eq!(copy.id, "3");
    assert_eq!(copy.name, "n");
    assert!(copy.is_complete);
}

#[test]
fn todo_row_becomes_todo_without_its_owner() {
    let row = TodoRow {
        id: "5".to_owned(),
        user_id: "u".to_owned(),
        name: "water plants".to_owned(),
        complete: true,
    };
    let todo = TodoEntity::from(row);
    assert_eq!(todo.id, "5");
    assert_eq!(todo.name, "water plants");
    assert!(todo.is_complete);
}

#[test]
fn todo_service_adds_and_lists() {
    let mut service = TodoService::new(InMemoryTodoRepository::new());
    assert!(service.add_todo("a", "one").is_ok());
    assert!(service.add_todo("b", "other").is_ok());
    assert!(service.add_todo("a", "two").is_ok());
    let list = service.list_todos("a").unwrap();
    let names: Vec<String> = list.into_iter().map(|t| t.name).collect();
    assert_eq!(names, vec!["one".to_owned(), "two".to_owned()]);
    assert!(service.list_todos("c").unwrap().is_empty());
}

#[test]
fn todo_service_maps_each_store_error() {
    assert!(matches!(
        TodoServiceError::from(RepositoryError::ItemAlreadyExists),
        TodoServiceError::DuplicateItem
    ));
    assert!(matches!(
        TodoServiceError::from(RepositoryError::ItemNotFound),
        TodoServiceError::ItemNotFound
    ));
    match TodoServiceError::from(RepositoryError::UnknownError { info: Some("u".to_owned()) }) {
        TodoServiceError::Unknown { info } => assert_eq!(info, Some("u".to_owned())),
        other => panic!("unexpected {:?}", other),
    }
    match TodoServiceError::from(RepositoryError::DatabaseConnectionError { info: None }) {
        TodoServiceError::Unknown { info } => assert_eq!(info, None),
        other => panic!("unexpected {:?}", other),
    }
}

#[test]
fn todo_service_results_follow_the_store() {
    assert!(addition_result(Ok("4".to_owned())).is_ok());
    assert!(matches!(
        addition_result(Err(RepositoryError::ItemAlreadyExists)),
        Err(TodoServiceError::DuplicateItem)
    ));
    let listed = listing_result(Ok(vec![TodoEntity {
        id: "1".to_owned(),
        name: "n".to_owned(),
        is_complete: false,
    }]))
    .unwrap();
    assert_eq!(listed.len(), 1);
    assert_eq!(listed[0].id, "1");
    match listing_result(Err(RepositoryError::DatabaseConnectionError {
        info: Some("down".to_owned()),
    })) {
        Err(TodoServiceError::Unknown { info }) => assert_eq!(info, Some("down".to_owned())),
        other => panic!("unexpected {:?}", other),
    }
}

#[test]
fn todo_store_without_room_fails_and_keeps_its_todos() {
    let mut store = InMemoryTodoRepository::starting_at(u64::MAX - 1);
    assert_eq!(store.add_todo("a", "last").unwrap(), "18446744073709551614");
    match store.add_todo("a", "one too many") {
        Err(RepositoryError::UnknownError { info }) => {
            assert_eq!(info.as_deref(), Some(NO_ROOM_FOR_TODO));
            assert_eq!(info.as_deref(), Some("no identifier is left for a new todo"));
        }
        other => panic!("unexpected {:?}", other),
    }
    let list = store.list_todos("a").unwrap();
    assert_eq!(list.len(), 1);
    assert_eq!(list[0].name, "last");
}

#[test]
fn todo_service_reports_a_full_store_as_unknown() {
    let mut service = TodoService::new(InMemoryTodoRepository::starting_at(u64::MAX));
    match service.add_todo("a", "x") {
        Err(TodoServiceError::Unknown { info }) => {
            assert_eq!(info.as_deref(), Some("no identifier is left for a new todo"))
        }
        other => panic!("unexpected {:?}", other),
    }
    assert!(service.list_todos("a").unwrap().is_empty());
}
