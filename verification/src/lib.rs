//! User registration, login and per-user todo lists behind a signed session
//! token.
//!
//! The crate holds the rules of the application: the stores and what they
//! promise, the services that register and authenticate users and keep their
//! todos, the session guard that admits or turns away a request, and the
//! decision each page handler takes. Transport, rendering and persistence to a
//! database are left to the program that embeds it.

pub mod app_state;
pub mod middleware;
pub mod pages;
pub mod repositories;
pub mod services;
pub mod utils;

pub use app_state::AppState;
pub use utils::token_codec::TokenClaims;
