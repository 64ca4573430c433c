//! The error taxonomy and the classifier that maps storage failures into it.

use vstd::prelude::*;
use vstd::string::StringExecFns;

verus! {

/// What a storage operation can report when it fails.
#[derive(Debug, PartialEq, Eq)]
pub enum StorageError {
    /// A lookup of a single row matched nothing.
    NotFound,
    /// A uniqueness rule of the target table would be broken.
    UniqueViolation,
    /// A referenced row is missing, or a row that is still referenced would go.
    ForeignKeyViolation,
    /// Any other failure, with the engine's own description.
    Other(String),
}

/// The table a storage operation was aimed at.
#[derive(Debug, Clone, Copy, PartialEq, Eq, Structural)]
pub enum Entity {
    User,
    Piece,
    PracticeSession,
    PiecePracticed,
}

/// The stable discriminant of an [`AppError`].
#[derive(Debug, Clone, Copy, PartialEq, Eq, Structural)]
pub enum ErrorKind {
    BackendError,
    ClientError,
    LoginError,
    Unauthorized,
    Forbidden,
    Conflict,
    NotFound,
}

/// Every failure that an operation can hand to its caller.
#[derive(Debug, PartialEq, Eq)]
pub enum AppError {
    /// Storage or infrastructure failure; the detail is for the server's log only.
    BackendError(String),
    /// Malformed or semantically invalid input.
    ClientError(String),
    /// Bad credentials, the same for an unknown name and a wrong password.
    LoginError,
    /// No valid session.
    Unauthorized,
    /// A valid session, but the action is not allowed in that state.
    Forbidden(String),
    /// A uniqueness rule was violated.
    Conflict(String),
    /// The target does not exist or is not the caller's.
    NotFound(String),
}

impl Clone for StorageError {
    fn clone(&self) -> (copy: Self)
        ensures
            copy == *self,
    {
        match self {
            StorageError::NotFound => StorageError::NotFound,
            StorageError::UniqueViolation => StorageError::UniqueViolation,
            StorageError::ForeignKeyViolation => StorageError::ForeignKeyViolation,
            StorageError::Other(detail) => StorageError::Other(detail.clone()),
        }
    }
}

impl Clone for AppError {
    fn clone(&self) -> (copy: Self)
        ensures
            copy == *self,
    {
        match self {
            AppError::BackendError(info) => AppError::BackendError(info.clone()),
            AppError::ClientError(info) => AppError::ClientError(info.clone()),
            AppError::LoginError => AppError::LoginError,
            AppError::Unauthorized => AppError::Unauthorized,
            AppError::Forbidden(info) => AppError::Forbidden(info.clone()),
            AppError::Conflict(info) => AppError::Conflict(info.clone()),
            AppError::NotFound(info) => AppError::NotFound(info.clone()),
        }
    }
}

/// An error as contracts see it: its kind and the text it carries.
pub struct Failure {
    pub kind: ErrorKind,
    pub info: Seq<char>,
}

impl View for AppError {
    type V = Failure;

    open spec fn view(&self) -> Failure {
        match *self {
            AppError::BackendError(info) => Failure { kind: ErrorKind::BackendError, info: info@ },
            AppError::ClientError(info) => Failure { kind: ErrorKind::ClientError, info: info@ },
            AppError::LoginError => Failure { kind: ErrorKind::LoginError, info: Seq::empty() },
            AppError::Unauthorized => Failure { kind: ErrorKind::Unauthorized, info: Seq::empty() },
            AppError::Forbidden(info) => Failure { kind: ErrorKind::Forbidden, info: info@ },
            AppError::Conflict(info) => Failure { kind: ErrorKind::Conflict, info: info@ },
            AppError::NotFound(info) => Failure { kind: ErrorKind::NotFound, info: info@ },
        }
    }
}

/// The message of the conflict raised when `entity`'s uniqueness rule is broken.
pub open spec fn conflict_text(entity: Entity) -> Seq<char> {
    match entity {
        Entity::User => "A user with that name already exists"@,
        Entity::Piece => "That piece is already registered in the database"@,
        Entity::PracticeSession => "A practice session at that time already exists"@,
        Entity::PiecePracticed => "Entry already exists"@,
    }
}

/// The message naming the row that is missing when a row of `entity` cannot
/// be stored for a broken reference.
///
/// A link is only written once its practice session is known to exist and to
/// be the caller's, so the row that a link misses is the piece. A practice
/// session refers to its user. Users and pieces refer to nothing.
pub open spec fn reference_text(entity: Entity) -> Seq<char> {
    match entity {
        Entity::User => "Referenced row not found"@,
        Entity::Piece => "Referenced row not found"@,
        Entity::PracticeSession => "User not found"@,
        Entity::PiecePracticed => "Piece not found"@,
    }
}

/// The message of a row of `entity` that cannot be removed because another
/// row refers to it.
pub open spec fn in_use_text(entity: Entity) -> Seq<char> {
    match entity {
        Entity::User => "User is still referenced"@,
        Entity::Piece => "Piece is still referenced"@,
        Entity::PracticeSession => "Practice session is still referenced"@,
        Entity::PiecePracticed => "Entry is still referenced"@,
    }
}

/// The message of a lookup on `entity` that matched nothing.
pub open spec fn not_found_text(entity: Entity) -> Seq<char> {
    match entity {
        Entity::User => "User not found"@,
        Entity::Piece => "Piece not found"@,
        Entity::PracticeSession => "Practice session not found"@,
        Entity::PiecePracticed => "Entry not found"@,
    }
}

/// The classification policy for a failure to store or to find a row:
/// uniqueness violations are conflicts, broken references are client errors,
/// a missing row is not found, and the rest is a backend error that keeps the
/// engine's description.
pub open spec fn classify_spec(error: StorageError, entity: Entity) -> Failure {
    match error {
        StorageError::UniqueViolation => Failure {
            kind: ErrorKind::Conflict,
            info: conflict_text(entity),
        },
        StorageError::ForeignKeyViolation => Failure {
            kind: ErrorKind::ClientError,
            info: reference_text(entity),
        },
        StorageError::NotFound => Failure {
            kind: ErrorKind::NotFound,
            info: not_found_text(entity),
        },
        StorageError::Other(detail) => Failure { kind: ErrorKind::BackendError, info: detail@ },
    }
}

/// The classification policy for a failure to remove a row. It differs from
/// that for storing in what a broken reference means: the row is still
/// referred to.
pub open spec fn classify_removal_spec(error: StorageError, entity: Entity) -> Failure {
    match error {
        StorageError::ForeignKeyViolation => Failure {
            kind: ErrorKind::ClientError,
            info: in_use_text(entity),
        },
        _ => classify_spec(error, entity),
    }
}

fn conflict_message(entity: Entity) -> (text: String)
    ensures
        text@ == conflict_text(entity),
{
    match entity {
        Entity::User => String::from_str("A user with that name already exists"),
        Entity::Piece => String::from_str("That piece is already registered in the database"),
        Entity::PracticeSession => String::from_str(
            "A practice session at that time already exists",
        ),
        Entity::PiecePracticed => String::from_str("Entry already exists"),
    }
}

fn reference_message(entity: Entity) -> (text: String)
    ensures
        text@ == reference_text(entity),
{
    match entity {
        Entity::User => String::from_str("Referenced row not found"),
        Entity::Piece => String::from_str("Referenced row not found"),
        Entity::PracticeSession => String::from_str("User not found"),
        Entity::PiecePracticed => String::from_str("Piece not found"),
    }
}

fn in_use_message(entity: Entity) -> (text: String)
    ensures
        text@ == in_use_text(entity),
{
    match entity {
        Entity::User => String::from_str("User is still referenced"),
        Entity::Piece => String::from_str("Piece is still referenced"),
        Entity::PracticeSession => String::from_str("Practice session is still referenced"),
        Entity::PiecePracticed => String::from_str("Entry is still referenced"),
    }
}

fn not_found_message(entity: Entity) -> (text: String)
    ensures
        text@ == not_found_text(entity),
{
    match entity {
        Entity::User => String::from_str("User not found"),
        Entity::Piece => String::from_str("Piece not found"),
        Entity::PracticeSession => String::from_str("Practice session not found"),
        Entity::PiecePracticed => String::from_str("Entry not found"),
    }
}

/// Maps a failure to store or to find a row of `entity` into the taxonomy.
pub fn classify(error: StorageError, entity: Entity) -> (result: AppError)
    ensures
        result@ == classify_spec(error, entity),
{
    match error {
        StorageError::UniqueViolation => AppError::Conflict(conflict_message(entity)),
        StorageError::ForeignKeyViolation => AppError::ClientError(reference_message(entity)),
        StorageError::NotFound => AppError::NotFound(not_found_message(entity)),
        StorageError::Other(detail) => AppError::BackendError(detail),
    }
}

/// Maps a failure to remove a row of `entity` into the taxonomy.
pub fn classify_removal(error: StorageError, entity: Entity) -> (result: AppError)
    ensures
        result@ == classify_removal_spec(error, entity),
{
    match error {
        StorageError::ForeignKeyViolation => AppError::ClientError(in_use_message(entity)),
        other => classify(other, entity),
    }
}

/// The error type of the `diesel` crate.
#[verifier::external_type_specification]
#[verifier::external_body]
pub struct ExQueryError(diesel::result::Error);

/// What a `diesel::result::Error` is as a storage failure: a missing row, a
/// database error of the kind unique violation, one of the kind foreign key
/// violation, or any other failure with the text that the error displays.
pub uninterp spec fn storage_fault(error: diesel::result::Error) -> StorageError;

/// Tells the variants of `diesel::result::Error` apart: a missing row, a
/// database error of the kind unique violation, one of the kind foreign key
/// violation, and the rest, which keeps the text that the error displays.
/// The contract names the result.
#[verifier::external_body]
fn storage_error_of(error: &diesel::result::Error) -> (fault: StorageError)
    ensures
        fault == storage_fault(*error),
{
    match error {
        diesel::result::Error::NotFound => StorageError::NotFound,
        diesel::result::Error::DatabaseError(
            diesel::result::DatabaseErrorKind::UniqueViolation,
            _,
        ) => StorageError::UniqueViolation,
        diesel::result::Error::DatabaseError(
            diesel::result::DatabaseErrorKind::ForeignKeyViolation,
            _,
        ) => StorageError::ForeignKeyViolation,
        other => StorageError::Other(other.to_string()),
    }
}

/// Maps the failure of a query that was to store or to find a row of
/// `entity` into the taxonomy: the error is taken as the storage failure that
/// it is, and that is classified.
pub fn classify_query_error(error: &diesel::result::Error, entity: Entity) -> (result: AppError)
    ensures
        result@ == classify_spec(storage_fault(*error), entity),
{
    let fault = storage_error_of(error);
    classify(fault, entity)
}

/// Maps the failure of a query that was to remove a row of `entity` into the
/// taxonomy: the error is taken as the storage failure that it is, and that
/// is classified by the policy for removals.
pub fn classify_removal_error(error: &diesel::result::Error, entity: Entity) -> (result: AppError)
    ensures
        result@ == classify_removal_spec(storage_fault(*error), entity),
{
    let fault = storage_error_of(error);
    classify_removal(fault, entity)
}

/// What a failed lookup of a user comes to at login: that the name is
/// unknown is not told, it is the failure that a wrong password gives.
pub fn hide_missing_user(error: AppError) -> (result: AppError)
    ensures
        result@ == if error@.kind == ErrorKind::NotFound {
            failure(ErrorKind::LoginError, Seq::empty())
        } else {
            error@
        },
{
    match error {
        AppError::NotFound(_) => AppError::LoginError,
        other => other,
    }
}

/// The HTTP-equivalent severity of each kind of error.
pub open spec fn status_of(kind: ErrorKind) -> int {
    match kind {
        ErrorKind::BackendError => 500,
        ErrorKind::ClientError => 400,
        ErrorKind::LoginError => 401,
        ErrorKind::Unauthorized => 401,
        ErrorKind::Forbidden => 403,
        ErrorKind::Conflict => 409,
        ErrorKind::NotFound => 404,
    }
}

/// The text that the caller is shown. A backend error never shows its detail.
pub open spec fn public_text(failure: Failure) -> Seq<char> {
    match failure.kind {
        ErrorKind::BackendError => "Server error"@,
        ErrorKind::LoginError => "Invalid login credentials"@,
        ErrorKind::Unauthorized => "Unauthorized"@,
        _ => failure.info,
    }
}

/// Whether `actual` is to the caller what `expected` is: the same kind and
/// the same text shown. The detail of a backend error is not shown.
pub open spec fn reports(actual: Failure, expected: Failure) -> bool {
    actual.kind == expected.kind && public_text(actual) == public_text(expected)
}

/// The failure of the given kind with the given text.
pub open spec fn failure(kind: ErrorKind, info: Seq<char>) -> Failure {
    Failure { kind, info }
}

/// The name under which each kind of error is reported.
pub open spec fn kind_name(kind: ErrorKind) -> Seq<char> {
    match kind {
        ErrorKind::BackendError => "BackendError"@,
        ErrorKind::ClientError => "ClientError"@,
        ErrorKind::LoginError => "LoginFailed"@,
        ErrorKind::Unauthorized => "Unauthorized"@,
        ErrorKind::Forbidden => "Forbidden"@,
        ErrorKind::Conflict => "Conflict"@,
        ErrorKind::NotFound => "NotFound"@,
    }
}

impl ErrorKind {
    /// The name under which this kind of error is reported.
    pub fn name(self) -> (name: String)
        ensures
            name@ == kind_name(self),
    {
        match self {
            ErrorKind::BackendError => String::from_str("BackendError"),
            ErrorKind::ClientError => String::from_str("ClientError"),
            ErrorKind::LoginError => String::from_str("LoginFailed"),
            ErrorKind::Unauthorized => String::from_str("Unauthorized"),
            ErrorKind::Forbidden => String::from_str("Forbidden"),
            ErrorKind::Conflict => String::from_str("Conflict"),
            ErrorKind::NotFound => String::from_str("NotFound"),
        }
    }
}

/// What the caller is sent for an error: the status code and the body, in
/// which `success` is false, `kind` names the kind of error and `error` is
/// the text shown.
#[derive(Debug, PartialEq, Eq)]
pub struct ErrorResponse {
    pub status: u16,
    pub success: bool,
    pub kind: String,
    pub error: String,
}

impl AppError {
    /// The stable discriminant of this error.
    pub fn kind(&self) -> (kind: ErrorKind)
        ensures
            kind == self@.kind,
    {
        match self {
            AppError::BackendError(_) => ErrorKind::BackendError,
            AppError::ClientError(_) => ErrorKind::ClientError,
            AppError::LoginError => ErrorKind::LoginError,
            AppError::Unauthorized => ErrorKind::Unauthorized,
            AppError::Forbidden(_) => ErrorKind::Forbidden,
            AppError::Conflict(_) => ErrorKind::Conflict,
            AppError::NotFound(_) => ErrorKind::NotFound,
        }
    }

    /// The status code under which this error is reported.
    pub fn status_code(&self) -> (code: u16)
        ensures
            code == status_of(self@.kind),
    {
        match self {
            AppError::BackendError(_) => 500,
            AppError::ClientError(_) => 400,
            AppError::LoginError => 401,
            AppError::Unauthorized => 401,
            AppError::Forbidden(_) => 403,
            AppError::Conflict(_) => 409,
            AppError::NotFound(_) => 404,
        }
    }

    /// The response that reports this error. The detail of a backend error
    /// stays behind, for the server's log.
    pub fn into_response(self) -> (response: ErrorResponse)
        ensures
            response.status == status_of(self@.kind),
            !response.success,
            response.kind@ == kind_name(self@.kind),
            response.error@ == public_text(self@),
    {
        let status = self.status_code();
        let kind = self.kind().name();
        let error = match self {
            AppError::BackendError(_) => String::from_str("Server error"),
            AppError::ClientError(info) => info,
            AppError::LoginError => String::from_str("Invalid login credentials"),
            AppError::Unauthorized => String::from_str("Unauthorized"),
            AppError::Forbidden(info) => info,
            AppError::Conflict(info) => info,
            AppError::NotFound(info) => info,
        };
        ErrorResponse { status, success: false, kind, error }
    }

    /// The message that is sent to the caller.
    pub fn public_message(&self) -> (text: String)
        ensures
            text@ == public_text(self@),
    {
        match self {
            AppError::BackendError(_) => String::from_str("Server error"),
            AppError::LoginError => String::from_str("Invalid login credentials"),
            AppError::Unauthorized => String::from_str("Unauthorized"),
            AppError::ClientError(info) => info.clone(),
            AppError::Forbidden(info) => info.clone(),
            AppError::Conflict(info) => info.clone(),
            AppError::NotFound(info) => info.clone(),
        }
    }
}

/// Resolves what the session store holds for a request into the acting user.
pub fn require_user(current_user: Option<i32>) -> (result: Result<i32, AppError>)
    ensures
        match current_user {
            Some(user_id) => result == Ok::<i32, AppError>(user_id),
            None => result == Err::<i32, AppError>(AppError::Unauthorized),
        },
{
    match current_user {
        Some(user_id) => Ok(user_id),
        None => Err(AppError::Unauthorized),
    }
}

} // verus!
