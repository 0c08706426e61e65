//! Everything that the handlers of one application share.

use crate::repositories::in_memory_todo_repository::InMemoryTodoRepository;
use crate::repositories::in_memory_user_repository::InMemoryUserRepository;
use crate::repositories::todo_repository::{TodoRecord, TodoRepository};
use crate::repositories::user_repository::{UserRepository, UserView};
use crate::services::auth_service::AuthService;
use crate::services::db_auth_service::DbAuthService;
use crate::services::todo_service::TodoService;
use crate::utils::token_codec::TokenCodec;
use vstd::prelude::*;

verus! {

/// The services of an application: authentication over a user store of type
/// `R`, with a credential hasher given by `H` and `V`, and the todo lists over
/// a todo store of type `T`. Nothing here is global: whoever builds the state
/// hands it the secret and the hasher.
pub struct AppState<R, H, V, T: TodoRepository> {
    pub auth_service: DbAuthService<R, H, V>,
    pub todo_service: TodoService<T>,
}

impl<R, H, V, T> AppState<R, H, V, T> where
    R: UserRepository,
    H: Fn(&str) -> Result<String, String>,
    V: Fn(&str, &str) -> Result<bool, String>,
    T: TodoRepository,
 {
    /// Both services are consistent.
    pub open spec fn wf(&self) -> bool {
        self.auth_service.wf() && self.todo_service.wf()
    }

    /// The state over the given stores.
    pub fn new(
        user_repository: R,
        todo_repository: T,
        codec: TokenCodec,
        hash_password: H,
        verify_password: V,
    ) -> (r: Self)
        ensures
            r.auth_service.made_of(user_repository, codec, hash_password, verify_password),
            r.todo_service.repository() == todo_repository,
            r.wf() <==> user_repository.wf() && todo_repository.wf() && DbAuthService::<
                R,
                H,
                V,
            >::total(hash_password, verify_password),
    {
        AppState {
            auth_service: DbAuthService::new(user_repository, codec, hash_password, verify_password),
            todo_service: TodoService::new(todo_repository),
        }
    }

    /// The store of the users, which the authentication service owns.
    pub fn user_repository(&self) -> (r: &R)
        ensures
            *r == self.auth_service.repository(),
    {
        self.auth_service.user_repository()
    }
}

impl<H, V> AppState<InMemoryUserRepository, H, V, InMemoryTodoRepository> where
    H: Fn(&str) -> Result<String, String>,
    V: Fn(&str, &str) -> Result<bool, String>,
 {
    /// A state that keeps everything in memory and starts empty. It is
    /// consistent if the two functions of the hasher take every input.
    pub fn new_in_memory(codec: TokenCodec, hash_password: H, verify_password: V) -> (r: Self)
        ensures
            r.auth_service.made_of(
                r.auth_service.repository(),
                codec,
                hash_password,
                verify_password,
            ),
            r.auth_service.repository().wf(),
            r.auth_service.repository().users() == Seq::<UserView>::empty(),
            r.auth_service.repository().created() == 0,
            r.todo_service.wf(),
            r.todo_service.todos() == Seq::<TodoRecord>::empty(),
            r.todo_service.repository().created() == 0,
            r.wf() <==> DbAuthService::<InMemoryUserRepository, H, V>::total(
                hash_password,
                verify_password,
            ),
    {
        AppState::new(
            InMemoryUserRepository::new(),
            InMemoryTodoRepository::new(),
            codec,
            hash_password,
            verify_password,
        )
    }
}

} // verus!
