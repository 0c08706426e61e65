pub mod jwt_session;
