use practice_app::error::{
    classify, classify_query_error, classify_removal, classify_removal_error, hide_missing_user,
    require_user, AppError, Entity, ErrorKind, ErrorResponse, StorageError,
};

#[test]
fn unique_violation_is_a_conflict_that_names_the_rule() {
    assert_eq!(
        classify(StorageError::UniqueViolation, Entity::User),
        AppError::Conflict("A user with that name already exists".to_string())
    );
    assert_eq!(
        classify(StorageError::UniqueViolation, Entity::Piece),
        AppError::Conflict("That piece is already registered in the database".to_string())
    );
    assert_eq!(
        classify(StorageError::UniqueViolation, Entity::PracticeSession),
        AppError::Conflict("A practice session at that time already exists".to_string())
    );
    assert_eq!(
        classify(StorageError::UniqueViolation, Entity::PiecePracticed),
        AppError::Conflict("Entry already exists".to_string())
    );
}

#[test]
fn foreign_key_violation_is_a_client_error_that_names_the_reference() {
    assert_eq!(
        classify(StorageError::ForeignKeyViolation, Entity::PiecePracticed),
        AppError::ClientError("Piece not found".to_string())
    );
    assert_eq!(
        classify(StorageError::ForeignKeyViolation, Entity::PracticeSession),
        AppError::ClientError("User not found".to_string())
    );
    assert_eq!(
        classify(StorageError::ForeignKeyViolation, Entity::Piece),
        AppError::ClientError("Referenced row not found".to_string())
    );
    assert_eq!(
        classify(StorageError::ForeignKeyViolation, Entity::User),
        AppError::ClientError("Referenced row not found".to_string())
    );
}

#[test]
fn a_row_that_is_still_referenced_cannot_go() {
    assert_eq!(
        classify_removal(StorageError::ForeignKeyViolation, Entity::Piece),
        AppError::ClientError("Piece is still referenced".to_string())
    );
    assert_eq!(
        classify_removal(StorageError::ForeignKeyViolation, Entity::User),
        AppError::ClientError("User is still referenced".to_string())
    );
    assert_eq!(
        classify_removal(StorageError::ForeignKeyViolation, Entity::PracticeSession),
        AppError::ClientError("Practice session is still referenced".to_string())
    );
    assert_eq!(
        classify_removal(StorageError::ForeignKeyViolation, Entity::PiecePracticed),
        AppError::ClientError("Entry is still referenced".to_string())
    );
    assert_eq!(
        classify_removal(StorageError::NotFound, Entity::Piece),
        AppError::NotFound("Piece not found".to_string())
    );
    assert_eq!(
        classify_removal(StorageError::UniqueViolation, Entity::Piece),
        AppError::Conflict("That piece is already registered in the database".to_string())
    );
    assert_eq!(
        classify_removal(StorageError::Other("down".to_string()), Entity::Piece),
        AppError::BackendError("down".to_string())
    );

    let blocked = diesel::result::Error::DatabaseError(
        diesel::result::DatabaseErrorKind::ForeignKeyViolation,
        Box::new("is still referenced from table".to_string()),
    );
    assert_eq!(
        classify_removal_error(&blocked, Entity::Piece),
        AppError::ClientError("Piece is still referenced".to_string())
    );
    assert_eq!(
        classify_removal_error(&diesel::result::Error::NotFound, Entity::User),
        AppError::NotFound("User not found".to_string())
    );
}

#[test]
fn missing_row_is_not_found() {
    assert_eq!(
        classify(StorageError::NotFound, Entity::PracticeSession),
        AppError::NotFound("Practice session not found".to_string())
    );
    assert_eq!(
        classify(StorageError::NotFound, Entity::Piece),
        AppError::NotFound("Piece not found".to_string())
    );
    assert_eq!(
        classify(StorageError::NotFound, Entity::User),
        AppError::NotFound("User not found".to_string())
    );
    assert_eq!(
        classify(StorageError::NotFound, Entity::PiecePracticed),
        AppError::NotFound("Entry not found".to_string())
    );
}

#[test]
fn anything_else_is_a_backend_error_with_the_detail_kept() {
    assert_eq!(
        classify(StorageError::Other("connection reset".to_string()), Entity::Piece),
        AppError::BackendError("connection reset".to_string())
    );
}

#[test]
fn each_kind_has_its_status_code() {
    assert_eq!(AppError::BackendError("x".to_string()).status_code(), 500);
    assert_eq!(AppError::ClientError("x".to_string()).status_code(), 400);
    assert_eq!(AppError::LoginError.status_code(), 401);
    assert_eq!(AppError::Unauthorized.status_code(), 401);
    assert_eq!(AppError::Forbidden("x".to_string()).status_code(), 403);
    assert_eq!(AppError::Conflict("x".to_string()).status_code(), 409);
    assert_eq!(AppError::NotFound("x".to_string()).status_code(), 404);
}

#[test]
fn each_error_has_its_kind() {
    assert_eq!(AppError::BackendError("x".to_string()).kind(), ErrorKind::BackendError);
    assert_eq!(AppError::ClientError("x".to_string()).kind(), ErrorKind::ClientError);
    assert_eq!(AppError::LoginError.kind(), ErrorKind::LoginError);
    assert_eq!(AppError::Unauthorized.kind(), ErrorKind::Unauthorized);
    assert_eq!(AppError::Forbidden("x".to_string()).kind(), ErrorKind::Forbidden);
    assert_eq!(AppError::Conflict("x".to_string()).kind(), ErrorKind::Conflict);
    assert_eq!(AppError::NotFound("x".to_string()).kind(), ErrorKind::NotFound);
}

#[test]
fn the_public_message_never_shows_backend_detail() {
    assert_eq!(
        AppError::BackendError("password for db is hunter2".to_string()).public_message(),
        "Server error"
    );
    assert_eq!(AppError::LoginError.public_message(), "Invalid login credentials");
    assert_eq!(AppError::Unauthorized.public_message(), "Unauthorized");
    assert_eq!(AppError::ClientError("Piece not found".to_string()).public_message(), "Piece not found");
    assert_eq!(AppError::Forbidden("Already logged in".to_string()).public_message(), "Already logged in");
    assert_eq!(AppError::Conflict("Entry already exists".to_string()).public_message(), "Entry already exists");
    assert_eq!(
        AppError::NotFound("Practice session not found".to_string()).public_message(),
        "Practice session not found"
    );
}

#[test]
fn a_request_without_a_user_is_unauthorized() {
    assert_eq!(require_user(Some(7)), Ok(7));
    assert_eq!(require_user(None), Err(AppError::Unauthorized));
}

#[test]
fn query_errors_are_told_apart_by_their_variant() {
    let missing = diesel::result::Error::NotFound;
    assert_eq!(
        classify_query_error(&missing, Entity::PracticeSession),
        AppError::NotFound("Practice session not found".to_string())
    );

    let duplicate = diesel::result::Error::DatabaseError(
        diesel::result::DatabaseErrorKind::UniqueViolation,
        Box::new("duplicate key value".to_string()),
    );
    assert_eq!(
        classify_query_error(&duplicate, Entity::Piece),
        AppError::Conflict("That piece is already registered in the database".to_string())
    );

    let dangling = diesel::result::Error::DatabaseError(
        diesel::result::DatabaseErrorKind::ForeignKeyViolation,
        Box::new("violates foreign key constraint".to_string()),
    );
    assert_eq!(
        classify_query_error(&dangling, Entity::PiecePracticed),
        AppError::ClientError("Piece not found".to_string())
    );

    let closed = diesel::result::Error::DatabaseError(
        diesel::result::DatabaseErrorKind::ClosedConnection,
        Box::new("server closed the connection".to_string()),
    );
    assert_eq!(
        classify_query_error(&closed, Entity::Piece),
        AppError::BackendError("server closed the connection".to_string())
    );

    let rollback = diesel::result::Error::RollbackTransaction;
    assert_eq!(
        classify_query_error(&rollback, Entity::User),
        AppError::BackendError("You have asked diesel to rollback the transaction".to_string())
    );
}

#[test]
fn a_missing_user_looks_like_a_wrong_password() {
    assert_eq!(hide_missing_user(AppError::NotFound("User not found".to_string())), AppError::LoginError);
    assert_eq!(
        hide_missing_user(AppError::BackendError("down".to_string())),
        AppError::BackendError("down".to_string())
    );
    assert_eq!(hide_missing_user(AppError::LoginError), AppError::LoginError);
}

#[test]
fn an_error_is_reported_with_its_status_and_its_public_message() {
    assert_eq!(
        AppError::BackendError("relation \"users\" does not exist".to_string()).into_response(),
        ErrorResponse { status: 500, success: false, kind: "BackendError".to_string(), error: "Server error".to_string() }
    );
    assert_eq!(
        AppError::ClientError("Piece not found".to_string()).into_response(),
        ErrorResponse { status: 400, success: false, kind: "ClientError".to_string(), error: "Piece not found".to_string() }
    );
    assert_eq!(
        AppError::LoginError.into_response(),
        ErrorResponse { status: 401, success: false, kind: "LoginFailed".to_string(), error: "Invalid login credentials".to_string() }
    );
    assert_eq!(
        AppError::Unauthorized.into_response(),
        ErrorResponse { status: 401, success: false, kind: "Unauthorized".to_string(), error: "Unauthorized".to_string() }
    );
    assert_eq!(
        AppError::Forbidden("Already logged in".to_string()).into_response(),
        ErrorResponse { status: 403, success: false, kind: "Forbidden".to_string(), error: "Already logged in".to_string() }
    );
    assert_eq!(
        AppError::Conflict("Entry already exists".to_string()).into_response(),
        ErrorResponse { status: 409, success: false, kind: "Conflict".to_string(), error: "Entry already exists".to_string() }
    );
    assert_eq!(
        AppError::NotFound("Practice session not found".to_string()).into_response(),
        ErrorResponse { status: 404, success: false, kind: "NotFound".to_string(), error: "Practice session not found".to_string() }
    );
}

#[test]
fn a_copy_of_an_error_is_the_same_error() {
    let conflict = AppError::Conflict("Entry already exists".to_string());
    assert_eq!(conflict.clone(), conflict);
    let other = StorageError::Other("down".to_string());
    assert_eq!(other.clone(), other);
    assert_eq!(StorageError::NotFound.clone(), StorageError::NotFound);
}

#[test]
fn each_kind_is_reported_under_its_name() {
    assert_eq!(ErrorKind::BackendError.name(), "BackendError");
    assert_eq!(ErrorKind::ClientError.name(), "ClientError");
    assert_eq!(ErrorKind::LoginError.name(), "LoginFailed");
    assert_eq!(ErrorKind::Unauthorized.name(), "Unauthorized");
    assert_eq!(ErrorKind::Forbidden.name(), "Forbidden");
    assert_eq!(ErrorKind::Conflict.name(), "Conflict");
    assert_eq!(ErrorKind::NotFound.name(), "NotFound");
}
