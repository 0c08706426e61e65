use todo_auth::app_state::AppState;
use todo_auth::middleware::jwt_session::{JwtSession, SessionDecision};
use todo_auth::pages::login::{login_submit_at, LoginFormData};
use todo_auth::pages::profile::profile_page;
use todo_auth::pages::register::{register_submit, RegisterFormData};
use todo_auth::pages::PageResponse;
use todo_auth::services::auth_service::{AuthService, AuthServiceError};
use todo_auth::utils::token_codec::TokenCodec;

fn hash(password: &str) -> Result<String, String> {
    Ok(password.chars().rev().collect())
}

fn verify(stored: &str, password: &str) -> Result<bool, String> {
    Ok(stored == password.chars().rev().collect::<String>())
}

#[test]
fn alice_registers_logs_in_and_sees_her_profile() {
    let mut app = AppState::new_in_memory(TokenCodec::new("k".to_owned()), hash, verify);

    assert!(app.auth_service.register_user("alice", "pw1").is_ok());
    assert!(matches!(
        app.auth_service.register_user("alice", "pw2"),
        Err(AuthServiceError::UserAlreadyExists)
    ));
    let token = app.auth_service.authenticate_user_at("alice", "pw1", 50).unwrap();
    assert!(matches!(
        app.auth_service.authenticate_user_at("alice", "wrong", 50),
        Err(AuthServiceError::IncorrectPassword)
    ));

    let codec = app.auth_service.codec();
    match JwtSession.authorize(codec, app.user_repository(), None, 60) {
        SessionDecision::Redirect { location } => assert_eq!(location, "/login"),
        other => panic!("unexpected {:?}", other),
    }

    let user = match JwtSession.authorize(codec, app.user_repository(), Some(&token), 60) {
        SessionDecision::Forward { user } => user,
        other => panic!("unexpected {:?}", other),
    };
    assert_eq!(user.username, "alice");
    let claims = codec.verify(&token, 60).unwrap();
    match profile_page(app.user_repository(), Some(&claims)) {
        PageResponse::ProfilePage { username } => assert!(username.contains("alice")),
        other => panic!("unexpected {:?}", other),
    }
}

#[test]
fn the_same_visit_through_the_forms() {
    let mut app = AppState::new_in_memory(TokenCodec::new("k".to_owned()), hash, verify);
    let form = RegisterFormData { username: "alice".to_owned(), password: "pw1".to_owned() };
    assert!(matches!(
        register_submit(&form, &mut app.auth_service),
        PageResponse::Found { .. }
    ));
    let login = LoginFormData { username: "alice".to_owned(), password: "pw1".to_owned() };
    let token = match login_submit_at(&login, &app.auth_service, 50) {
        PageResponse::Found { session_token: Some(token), .. } => token,
        other => panic!("unexpected {:?}", other),
    };
    assert!(matches!(
        JwtSession.authorize(app.auth_service.codec(), app.user_repository(), Some(&token), 650),
        SessionDecision::Forward { .. }
    ));
    assert!(matches!(
        JwtSession.authorize(app.auth_service.codec(), app.user_repository(), Some(&token), 651),
        SessionDecision::Redirect { .. }
    ));
}
