use todo_auth::app_state::AppState;
use todo_auth::pages::basic_auth::{basic_auth, basic_auth_response};
use todo_auth::pages::index::index_redirect;
use todo_auth::pages::login::{
    login_page, login_response, login_submit, login_submit_at, show_login_page, LoginFormData,
};
use todo_auth::pages::profile::{profile_page, profile_response};
use todo_auth::pages::register::{
    register_page, register_response, register_submit, show_register_page, RegisterFormData,
};
use todo_auth::pages::todos::{
    create_todo_submit, show_todos_page, todos_page, todos_response, CreateTodoFormData,
};
use todo_auth::pages::{owned_text, PageResponse};
use todo_auth::repositories::in_memory_todo_repository::InMemoryTodoRepository;
use todo_auth::repositories::in_memory_user_repository::InMemoryUserRepository;
use todo_auth::repositories::todo_repository::TodoEntity;
use todo_auth::repositories::user_repository::{UserEntity, UserRepository};
use todo_auth::repositories::RepositoryError;
use todo_auth::services::auth_service::{AuthService, AuthServiceError};
use todo_auth::services::todo_service::TodoServiceError;
use todo_auth::utils::token_codec::{TokenClaims, TokenCodec};

fn hash(password: &str) -> Result<String, String> {
    Ok(format!("h({})", password))
}

fn verify(stored: &str, password: &str) -> Result<bool, String> {
    Ok(stored == format!("h({})", password))
}

type State = AppState<
    InMemoryUserRepository,
    fn(&str) -> Result<String, String>,
    fn(&str, &str) -> Result<bool, String>,
    InMemoryTodoRepository,
>;

fn state() -> State {
    AppState::new_in_memory(TokenCodec::new("secret".to_owned()), hash, verify)
}

fn login_form(username: &str, password: &str) -> LoginFormData {
    LoginFormData { username: username.to_owned(), password: password.to_owned() }
}

fn register_form(username: &str, password: &str) -> RegisterFormData {
    RegisterFormData { username: username.to_owned(), password: password.to_owned() }
}

fn user(id: &str, name: &str) -> UserEntity {
    UserEntity { id: id.to_owned(), username: name.to_owned(), pw_hash: "h".to_owned() }
}

fn assert_login_page(response: PageResponse, expected: Option<&str>) {
    match response {
        PageResponse::LoginPage { error } => assert_eq!(error.as_deref(), expected),
        other => panic!("unexpected {:?}", other),
    }
}

fn assert_register_page(response: PageResponse, expected: Option<&str>) {
    match response {
        PageResponse::RegisterPage { error } => assert_eq!(error.as_deref(), expected),
        other => panic!("unexpected {:?}", other),
    }
}

fn assert_found(response: PageResponse, to: &str, token: Option<&str>) {
    match response {
        PageResponse::Found { location, session_token } => {
            assert_eq!(location, to);
            assert_eq!(session_token.as_deref(), token);
        }
        other => panic!("unexpected {:?}", other),
    }
}

fn assert_failure(response: PageResponse, expected: Option<&str>) {
    match response {
        PageResponse::InternalServerError { description } => {
            assert_eq!(description.as_deref(), expected)
        }
        other => panic!("unexpected {:?}", other),
    }
}

#[test]
fn front_door_leads_to_login() {
    assert_found(index_redirect(), "/login", None);
}

#[test]
fn fresh_form_pages_carry_no_message() {
    assert_login_page(login_page(), None);
    assert_register_page(register_page(), None);
    assert_login_page(show_login_page(Some("oops")), Some("oops"));
    assert_register_page(show_register_page(Some("oops")), Some("oops"));
    assert_eq!(owned_text(None), None);
    assert_eq!(owned_text(Some("t")), Some("t".to_owned()));
}

#[test]
fn login_answers() {
    assert_found(login_response(Ok("tok".to_owned())), "/home/profile", Some("tok"));
    assert_login_page(
        login_response(Err(AuthServiceError::IncorrectPassword)),
        Some("Incorrect username or password"),
    );
    assert_login_page(
        login_response(Err(AuthServiceError::UserDoesNotExists)),
        Some("Incorrect username or password"),
    );
    assert_login_page(
        login_response(Err(AuthServiceError::Unknown { info: Some("secret detail".to_owned()) })),
        Some("Unknown error"),
    );
    assert_login_page(
        login_response(Err(AuthServiceError::UserAlreadyExists)),
        Some("Unknown error"),
    );
}

#[test]
fn register_answers() {
    assert_found(register_response(Ok(())), "/login", None);
    assert_register_page(
        register_response(Err(AuthServiceError::UserAlreadyExists)),
        Some("User already exists"),
    );
    assert_register_page(
        register_response(Err(AuthServiceError::Unknown { info: None })),
        Some("Unknown error"),
    );
    assert_register_page(
        register_response(Err(AuthServiceError::IncorrectPassword)),
        Some("Unknown error"),
    );
}

#[test]
fn submitted_registration_and_login() {
    let mut app = state();
    assert_found(
        register_submit(&register_form("alice", "pw1"), &mut app.auth_service),
        "/login",
        None,
    );
    assert_register_page(
        register_submit(&register_form("alice", "pw2"), &mut app.auth_service),
        Some("User already exists"),
    );
    assert_login_page(
        login_submit_at(&login_form("alice", "nope"), &app.auth_service, 1000),
        Some("Incorrect username or password"),
    );
    assert_login_page(
        login_submit_at(&login_form("nobody", "pw1"), &app.auth_service, 1000),
        Some("Incorrect username or password"),
    );
    let expected = app.auth_service.authenticate_user_at("alice", "pw1", 1000).unwrap();
    assert_found(
        login_submit_at(&login_form("alice", "pw1"), &app.auth_service, 1000),
        "/home/profile",
        Some(&expected),
    );
    match login_submit(&login_form("alice", "pw1"), &app.auth_service) {
        PageResponse::Found { location, session_token } => {
            assert_eq!(location, "/home/profile");
            let token = session_token.expect("a login sets the session");
            let now = todo_auth::utils::clock::now().unwrap();
            assert_eq!(app.auth_service.codec().verify(&token, now).unwrap().id, "0");
        }
        other => panic!("unexpected {:?}", other),
    }
}

#[test]
fn profile_page_answers() {
    let mut app = state();
    app.auth_service.register_user("alice", "pw1").unwrap();
    match profile_page(app.user_repository(), None) {
        PageResponse::Unauthorized { message } => assert_eq!(message, "Unable to verify identity"),
        other => panic!("unexpected {:?}", other),
    }
    let claims = TokenClaims { id: "0".to_owned(), issued: 0, expiration: 600 };
    match profile_page(app.user_repository(), Some(&claims)) {
        PageResponse::ProfilePage { username } => assert_eq!(username, "alice"),
        other => panic!("unexpected {:?}", other),
    }
    let stranger = TokenClaims { id: "5".to_owned(), issued: 0, expiration: 600 };
    match profile_page(app.user_repository(), Some(&stranger)) {
        PageResponse::TemporaryRedirect { location } => assert_eq!(location, "/login"),
        other => panic!("unexpected {:?}", other),
    }
}

#[test]
fn profile_answers_follow_the_lookup() {
    match profile_response(Ok(Some(user("1", "bob")))) {
        PageResponse::ProfilePage { username } => assert_eq!(username, "bob"),
        other => panic!("unexpected {:?}", other),
    }
    match profile_response(Ok(None)) {
        PageResponse::TemporaryRedirect { location } => assert_eq!(location, "/login"),
        other => panic!("unexpected {:?}", other),
    }
    assert_failure(
        profile_response(Err(RepositoryError::DatabaseConnectionError {
            info: Some("down".to_owned()),
        })),
        None,
    );
}

#[test]
fn todo_pages() {
    let mut app = state();
    let alice = user("0", "alice");
    let bob = user("1", "bob");
    match todos_page(&app.todo_service, &alice) {
        PageResponse::TodosPage { username, todos } => {
            assert_eq!(username, "alice");
            assert!(todos.is_empty());
        }
        other => panic!("unexpected {:?}", other),
    }
    let form = CreateTodoFormData { name: "walk the dog".to_owned() };
    match create_todo_submit(&form, &mut app.todo_service, &alice) {
        PageResponse::TodosPage { username, todos } => {
            assert_eq!(username, "alice");
            assert_eq!(todos.len(), 1);
            assert_eq!(todos[0].id, "0");
            assert_eq!(todos[0].name, "walk the dog");
            assert!(!todos[0].is_complete);
        }
        other => panic!("unexpected {:?}", other),
    }
    let other_form = CreateTodoFormData { name: "bob's".to_owned() };
    match create_todo_submit(&other_form, &mut app.todo_service, &bob) {
        PageResponse::TodosPage { username, todos } => {
            assert_eq!(username, "bob");
            assert_eq!(todos.len(), 1);
            assert_eq!(todos[0].name, "bob's");
        }
        other => panic!("unexpected {:?}", other),
    }
    match create_todo_submit(&form, &mut app.todo_service, &alice) {
        PageResponse::TodosPage { todos, .. } => {
            assert_eq!(todos.len(), 2);
            assert_eq!(todos[1].id, "2");
        }
        other => panic!("unexpected {:?}", other),
    }
}

#[test]
fn todo_answers_follow_the_listing() {
    let todos = vec![TodoEntity { id: "4".to_owned(), name: "n".to_owned(), is_complete: true }];
    match todos_response("carol", Ok(todos)) {
        PageResponse::TodosPage { username, todos } => {
            assert_eq!(username, "carol");
            assert_eq!(todos.len(), 1);
            assert!(todos[0].is_complete);
        }
        other => panic!("unexpected {:?}", other),
    }
    assert_failure(
        todos_response("carol", Err(TodoServiceError::Unknown { info: Some("x".to_owned()) })),
        None,
    );
    match show_todos_page("dave", Vec::new()) {
        PageResponse::TodosPage { username, todos } => {
            assert_eq!(username, "dave");
            assert!(todos.is_empty());
        }
        other => panic!("unexpected {:?}", other),
    }
}

#[test]
fn basic_auth_answers() {
    assert_found(basic_auth_response(Ok("tok".to_owned())), "/home/potato", Some("tok"));
    match basic_auth_response(Err(AuthServiceError::IncorrectPassword)) {
        PageResponse::Unauthorized { message } => {
            assert_eq!(message, "Incorrect username or password")
        }
        other => panic!("unexpected {:?}", other),
    }
    assert_failure(
        basic_auth_response(Err(AuthServiceError::UserDoesNotExists)),
        Some("user not found"),
    );
    assert_failure(
        basic_auth_response(Err(AuthServiceError::Unknown { info: Some("why".to_owned()) })),
        None,
    );
    assert_failure(basic_auth_response(Err(AuthServiceError::Unknown { info: None })), None);
    assert_failure(basic_auth_response(Err(AuthServiceError::UserAlreadyExists)), None);
}

#[test]
fn basic_auth_with_and_without_a_password() {
    let mut app = state();
    app.auth_service.register_user("alice", "pw1").unwrap();
    match basic_auth(&app.auth_service, "alice", None, 1000) {
        PageResponse::Unauthorized { message } => {
            assert_eq!(message, "Must provide username and password")
        }
        other => panic!("unexpected {:?}", other),
    }
    match basic_auth(&app.auth_service, "nobody", None, 1000) {
        PageResponse::Unauthorized { message } => {
            assert_eq!(message, "Must provide username and password")
        }
        other => panic!("unexpected {:?}", other),
    }
    let expected = app.auth_service.authenticate_user_at("alice", "pw1", 1000).unwrap();
    assert_found(
        basic_auth(&app.auth_service, "alice", Some("pw1"), 1000),
        "/home/potato",
        Some(&expected),
    );
    match basic_auth(&app.auth_service, "alice", Some("bad"), 1000) {
        PageResponse::Unauthorized { message } => {
            assert_eq!(message, "Incorrect username or password")
        }
        other => panic!("unexpected {:?}", other),
    }
    assert_failure(basic_auth(&app.auth_service, "bob", Some("pw1"), 1000), Some("user not found"));
}

#[test]
fn state_over_given_stores() {
    let mut users = InMemoryUserRepository::new();
    users.create_user("zed", "h(z)").unwrap();
    let app: State = AppState::new(
        users,
        InMemoryTodoRepository::new(),
        TokenCodec::new("secret".to_owned()),
        hash,
        verify,
    );
    assert_eq!(app.user_repository().get_user_by_username("zed").unwrap().unwrap().id, "0");
    assert!(app.auth_service.authenticate_user_at("zed", "z", 5).is_ok());
    assert!(app.todo_service.list_todos("0").unwrap().is_empty());
}

#[test]
fn todo_page_of_a_full_store_is_a_failure_without_detail() {
    let mut service = todo_auth::services::todo_service::TodoService::new(
        InMemoryTodoRepository::starting_at(u64::MAX),
    );
    let form = CreateTodoFormData { name: "x".to_owned() };
    assert_failure(create_todo_submit(&form, &mut service, &user("0", "alice")), None);
    match todos_page(&service, &user("0", "alice")) {
        PageResponse::TodosPage { todos, .. } => assert!(todos.is_empty()),
        other => panic!("unexpected {:?}", other),
    }
}
