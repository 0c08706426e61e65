pub mod auth_service;
pub mod db_auth_service;
pub mod todo_service;
