use todo_auth::repositories::in_memory_user_repository::{InMemoryUserRepository, NO_ROOM_FOR_USER};
use todo_auth::repositories::RepositoryError;
use todo_auth::repositories::sql_user_repository::UserRow;
use todo_auth::repositories::user_repository::{UserEntity, UserRepository};

#[test]
fn empty_user_store_finds_nobody() {
    let store = InMemoryUserRepository::new();
    assert!(matches!(store.get_user_by_id("0"), Ok(None)));
    assert!(matches!(store.get_user_by_username("alice"), Ok(None)));
}

#[test]
fn created_user_is_found_by_id_and_by_name() {
    let mut store = InMemoryUserRepository::new();
    let id = store.create_user("alice", "hash-a").unwrap();
    assert_eq!(id, "0");

    let by_id = store.get_user_by_id("0").unwrap().expect("the user was created");
    assert_eq!(by_id.id, "0");
    assert_eq!(by_id.username, "alice");
    assert_eq!(by_id.pw_hash, "hash-a");

    let by_name = store.get_user_by_username("alice").unwrap().expect("the user was created");
    assert_eq!(by_name.id, "0");
    assert_eq!(by_name.pw_hash, "hash-a");
}

#[test]
fn each_user_gets_an_identifier_of_its_own() {
    let mut store = InMemoryUserRepository::new();
    assert_eq!(store.create_user("alice", "a").unwrap(), "0");
    assert_eq!(store.create_user("bob", "b").unwrap(), "1");
    assert_eq!(store.create_user("carol", "c").unwrap(), "2");
    assert_eq!(store.get_user_by_id("1").unwrap().unwrap().username, "bob");
    assert_eq!(store.get_user_by_username("carol").unwrap().unwrap().id, "2");
    assert!(matches!(store.get_user_by_id("3"), Ok(None)));
    assert!(matches!(store.get_user_by_username("dave"), Ok(None)));
}

#[test]
fn store_does_not_enforce_unique_names() {
    let mut store = InMemoryUserRepository::new();
    assert_eq!(store.create_user("alice", "first").unwrap(), "0");
    assert_eq!(store.create_user("alice", "second").unwrap(), "1");
    let found = store.get_user_by_username("alice").unwrap().unwrap();
    assert_eq!(found.id, "0");
    assert_eq!(found.pw_hash, "first");
    assert_eq!(store.get_user_by_id("1").unwrap().unwrap().pw_hash, "second");
}

#[test]
fn lookup_by_id_does_not_match_names() {
    let mut store = InMemoryUserRepository::new();
    store.create_user("0", "x").unwrap();
    store.create_user("alice", "y").unwrap();
    assert_eq!(store.get_user_by_id("0").unwrap().unwrap().username, "0");
    assert!(matches!(store.get_user_by_id("alice"), Ok(None)));
    assert_eq!(store.get_user_by_username("0").unwrap().unwrap().id, "0");
}

#[test]
fn user_clone_keeps_every_field() {
    let user = UserEntity {
        id: "4".to_owned(),
        username: "dora".to_owned(),
        pw_hash: "h".to_owned(),
    };
    let copy = user.clone();
    assert_eq!(copy.id, "4");
    assert_eq!(copy.username, "dora");
    assert_eq!(copy.pw_hash, "h");
}

#[test]
fn user_row_becomes_user_column_by_column() {
    let row = UserRow {
        id: "9".to_owned(),
        username: "eve".to_owned(),
        password_hash: "secret-hash".to_owned(),
    };
    let user = UserEntity::from(row);
    assert_eq!(user.id, "9");
    assert_eq!(user.username, "eve");
    assert_eq!(user.pw_hash, "secret-hash");
}

#[test]
fn user_store_without_room_fails_and_keeps_its_users() {
    let mut store = InMemoryUserRepository::starting_at(u64::MAX - 1);
    assert_eq!(store.create_user("alice", "a").unwrap(), "18446744073709551614");
    match store.create_user("bob", "b") {
        Err(RepositoryError::UnknownError { info }) => {
            assert_eq!(info.as_deref(), Some(NO_ROOM_FOR_USER));
            assert_eq!(info.as_deref(), Some("no identifier is left for a new user"));
        }
        other => panic!("unexpected {:?}", other),
    }
    assert!(matches!(store.get_user_by_username("bob"), Ok(None)));
    assert_eq!(store.get_user_by_username("alice").unwrap().unwrap().pw_hash, "a");
}
