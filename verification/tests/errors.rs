use todo_auth::repositories::sqlx_error_mapper::{map_sql_error, SqlErrorKind};
use todo_auth::repositories::RepositoryError;
use todo_auth::services::auth_service::AuthServiceError;
use todo_auth::services::todo_service::TodoServiceError;

fn connection_error(kind: SqlErrorKind) {
    match map_sql_error(kind, "text".to_owned()) {
        RepositoryError::DatabaseConnectionError { info } => {
            assert_eq!(info, Some("text".to_owned()))
        }
        other => panic!("{:?} gave {:?}", kind, other),
    }
}

#[test]
fn connection_trouble_maps_to_database_connection_error() {
    connection_error(SqlErrorKind::Configuration);
    connection_error(SqlErrorKind::Database);
    connection_error(SqlErrorKind::Io);
    connection_error(SqlErrorKind::Tls);
    connection_error(SqlErrorKind::Protocol);
    connection_error(SqlErrorKind::AnyDriverError);
    connection_error(SqlErrorKind::PoolTimedOut);
    connection_error(SqlErrorKind::PoolClosed);
    connection_error(SqlErrorKind::WorkerCrashed);
}

#[test]
fn missing_row_or_column_maps_to_item_not_found() {
    assert!(matches!(
        map_sql_error(SqlErrorKind::RowNotFound, "t".to_owned()),
        RepositoryError::ItemNotFound
    ));
    assert!(matches!(
        map_sql_error(SqlErrorKind::ColumnIndexOutOfBounds, "t".to_owned()),
        RepositoryError::ItemNotFound
    ));
}

#[test]
fn unrecognised_kind_maps_to_unknown_error() {
    match map_sql_error(SqlErrorKind::Other, "odd".to_owned()) {
        RepositoryError::UnknownError { info } => assert_eq!(info, Some("odd".to_owned())),
        other => panic!("unexpected {:?}", other),
    }
}

#[test]
fn driver_errors_are_told_apart() {
    assert!(matches!(
        RepositoryError::from(sqlx::Error::RowNotFound),
        RepositoryError::ItemNotFound
    ));
    assert!(matches!(
        RepositoryError::from(sqlx::Error::ColumnIndexOutOfBounds { index: 3, len: 2 }),
        RepositoryError::ItemNotFound
    ));
    match RepositoryError::from(sqlx::Error::PoolTimedOut) {
        RepositoryError::DatabaseConnectionError { info } => assert_eq!(
            info,
            Some("pool timed out while waiting for an open connection".to_owned())
        ),
        other => panic!("unexpected {:?}", other),
    }
    match RepositoryError::from(sqlx::Error::PoolClosed) {
        RepositoryError::DatabaseConnectionError { info } => assert_eq!(
            info,
            Some("attempted to acquire a connection on a closed pool".to_owned())
        ),
        other => panic!("unexpected {:?}", other),
    }
    match RepositoryError::from(sqlx::Error::WorkerCrashed) {
        RepositoryError::DatabaseConnectionError { info } => assert_eq!(
            info,
            Some("attempted to communicate with a crashed background worker".to_owned())
        ),
        other => panic!("unexpected {:?}", other),
    }
    match RepositoryError::from(sqlx::Error::Protocol("garbled".to_owned())) {
        RepositoryError::DatabaseConnectionError { info } => assert_eq!(
            info,
            Some("encountered unexpected or invalid data: garbled".to_owned())
        ),
        other => panic!("unexpected {:?}", other),
    }
    let io = std::io::Error::new(std::io::ErrorKind::ConnectionReset, "reset");
    match RepositoryError::from(sqlx::Error::Io(io)) {
        RepositoryError::DatabaseConnectionError { info } => assert_eq!(
            info,
            Some("error communicating with database: reset".to_owned())
        ),
        other => panic!("unexpected {:?}", other),
    }
}

#[test]
fn driver_errors_that_are_not_named_are_unknown() {
    match RepositoryError::from(sqlx::Error::ColumnNotFound("age".to_owned())) {
        RepositoryError::UnknownError { info } => {
            assert_eq!(info, Some("no column found for name: age".to_owned()))
        }
        other => panic!("unexpected {:?}", other),
    }
    match RepositoryError::from(sqlx::Error::InvalidArgument("no such thing".to_owned())) {
        RepositoryError::UnknownError { info } => {
            assert_eq!(info, Some("no such thing".to_owned()))
        }
        other => panic!("unexpected {:?}", other),
    }
}

#[test]
fn repository_error_messages() {
    assert_eq!(RepositoryError::ItemAlreadyExists.message(), "already exists");
    assert_eq!(RepositoryError::ItemNotFound.message(), "item not found");
    assert_eq!(
        RepositoryError::DatabaseConnectionError { info: Some("down".to_owned()) }.message(),
        "database connection error Some(\"down\")"
    );
    assert_eq!(
        RepositoryError::DatabaseConnectionError { info: None }.message(),
        "database connection error None"
    );
    assert_eq!(
        RepositoryError::UnknownError { info: Some("a \"b\"".to_owned()) }.message(),
        "unknown: Some(\"a \\\"b\\\"\")"
    );
    assert_eq!(RepositoryError::UnknownError { info: None }.message(), "unknown: None");
}

#[test]
fn auth_service_error_messages() {
    assert_eq!(AuthServiceError::UserAlreadyExists.message(), "User already exists");
    assert_eq!(AuthServiceError::UserDoesNotExists.message(), "User does not exist");
    assert_eq!(AuthServiceError::IncorrectPassword.message(), "Incorrect password");
    assert_eq!(
        AuthServiceError::Unknown { info: Some("x".to_owned()) }.message(),
        "Unknown error has occurred: Some(\"x\")"
    );
    assert_eq!(
        AuthServiceError::Unknown { info: None }.message(),
        "Unknown error has occurred: None"
    );
}

#[test]
fn todo_service_error_messages() {
    assert_eq!(TodoServiceError::DuplicateItem.message(), "Duplicate item");
    assert_eq!(TodoServiceError::ItemNotFound.message(), "Item not found");
    assert_eq!(
        TodoServiceError::Unknown { info: Some("line\nbreak".to_owned()) }.message(),
        "Unknown error has occurred: Some(\"line\\nbreak\")"
    );
    assert_eq!(
        TodoServiceError::Unknown { info: None }.message(),
        "Unknown error has occurred: None"
    );
}
