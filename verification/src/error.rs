//! The error that every operation of the backend reports.

use vstd::prelude::*;
use vstd::string::StringExecFns;
use crate::text::{clone_opt, contains, contains_text, opt_view};

verus! {

/// What kind of failure an [`AppError`] reports.
#[derive(Debug, Clone, Copy, PartialEq, Eq, Structural)]
pub enum ErrorCode {
    DatabaseConnection,
    DatabaseQuery,
    DatabaseMigration,
    ValidationError,
    InvalidInput,
    InvalidId,
    NotFound,
    AlreadyExists,
    CannotDelete,
    CannotUpdate,
    InternalError,
    ConfigError,
    IoError,
    Unauthorized,
    Forbidden,
}

/// A failure: its kind, a message for the user, and details where there are any.
#[derive(Debug)]
pub struct AppError {
    pub code: ErrorCode,
    pub message: String,
    pub details: Option<String>,
}

/// The result of an operation of the backend.
pub type AppResult<T> = Result<T, AppError>;

/// How a call into the database failed, as far as the backend tells
/// failures apart.
#[derive(Debug)]
pub enum DatabaseFailure {
    /// A query that should have found a row found none.
    RowNotFound,
    /// The database refused a statement; `message` is what it said.
    Database { message: String },
    /// Anything else; `text` is the failure as text.
    Other { text: String },
}

/// The message of [`AppError::not_found`].
pub open spec fn not_found_message(entity: Seq<char>, id: Seq<char>) -> Seq<char> {
    entity + " with id '"@ + id + "' not found"@
}

/// The message of [`AppError::invalid_id`].
pub open spec fn invalid_id_message(id: Seq<char>) -> Seq<char> {
    "Invalid ID format: '"@ + id + "'"@
}

/// The message of [`AppError::database_error`].
pub open spec fn database_error_message(operation: Seq<char>) -> Seq<char> {
    "Database operation '"@ + operation + "' failed"@
}

/// The message of [`AppError::validation_error`].
pub open spec fn validation_error_message(field: Seq<char>, reason: Seq<char>) -> Seq<char> {
    "Validation failed for field '"@ + field + "': "@ + reason
}

impl AppError {
    /// Whether this error has the given kind, message and details.
    pub open spec fn is(self, code: ErrorCode, message: Seq<char>, details: Option<Seq<char>>) -> bool {
        &&& self.code == code
        &&& self.message@ == message
        &&& opt_view(self.details) == details
    }

    /// An error of kind `code` with `message` and no details.
    pub fn new(code: ErrorCode, message: &str) -> (e: Self)
        ensures
            e.is(code, message@, None),
    {
        AppError { code, message: message.to_owned(), details: None }
    }

    /// This error with `details` attached in place of any earlier details.
    pub fn with_details(self, details: &str) -> (e: Self)
        ensures
            e.is(self.code, self.message@, Some(details@)),
    {
        AppError { code: self.code, message: self.message, details: Some(details.to_owned()) }
    }

    /// The error for a record of kind `entity` that does not exist under `id`.
    pub fn not_found(entity: &str, id: &str) -> (e: Self)
        ensures
            e.is(ErrorCode::NotFound, not_found_message(entity@, id@), None),
    {
        let mut m = entity.to_owned();
        m.append(" with id '");
        m.append(id);
        m.append("' not found");
        AppError { code: ErrorCode::NotFound, message: m, details: None }
    }

    /// The error for an identifier that is not a UUID.
    pub fn invalid_id(id: &str) -> (e: Self)
        ensures
            e.is(ErrorCode::InvalidId, invalid_id_message(id@), None),
    {
        let mut m = "Invalid ID format: '".to_owned();
        m.append(id);
        m.append("'");
        AppError { code: ErrorCode::InvalidId, message: m, details: None }
    }

    /// The error for a database operation that failed; `error` is the text of
    /// the failure as the database reported it.
    pub fn database_error(operation: &str, error: &str) -> (e: Self)
        ensures
            e.is(ErrorCode::DatabaseQuery, database_error_message(operation@), Some(error@)),
    {
        let mut m = "Database operation '".to_owned();
        m.append(operation);
        m.append("' failed");
        AppError { code: ErrorCode::DatabaseQuery, message: m, details: Some(error.to_owned()) }
    }

    /// The error for a field that failed validation.
    pub fn validation_error(field: &str, reason: &str) -> (e: Self)
        ensures
            e.is(ErrorCode::ValidationError, validation_error_message(field@, reason@), None),
    {
        let mut m = "Validation failed for field '".to_owned();
        m.append(field);
        m.append("': ");
        m.append(reason);
        AppError { code: ErrorCode::ValidationError, message: m, details: None }
    }

    /// The error for a failed call into the database: a missing row is not
    /// found, a broken uniqueness constraint means that the resource exists
    /// already, and anything else is a failed query.
    pub fn from_database_failure(failure: DatabaseFailure) -> (e: Self)
        ensures
            match failure {
                DatabaseFailure::RowNotFound => e.is(
                    ErrorCode::NotFound,
                    "Requested resource not found"@,
                    None,
                ),
                DatabaseFailure::Database { message } => if contains_text(
                    message@,
                    "UNIQUE constraint"@,
                ) {
                    e.is(ErrorCode::AlreadyExists, "Resource already exists"@, Some(message@))
                } else {
                    e.is(ErrorCode::DatabaseQuery, "Database operation failed"@, Some(message@))
                },
                DatabaseFailure::Other { text } => e.is(
                    ErrorCode::DatabaseQuery,
                    "Database error occurred"@,
                    Some(text@),
                ),
            },
    {
        match failure {
            DatabaseFailure::RowNotFound => AppError::new(
                ErrorCode::NotFound,
                "Requested resource not found",
            ),
            DatabaseFailure::Database { message } => {
                if contains(message.as_str(), "UNIQUE constraint") {
                    AppError::new(ErrorCode::AlreadyExists, "Resource already exists").with_details(
                        message.as_str(),
                    )
                } else {
                    AppError::new(ErrorCode::DatabaseQuery, "Database operation failed").with_details(
                        message.as_str(),
                    )
                }
            },
            DatabaseFailure::Other { text } => AppError::new(
                ErrorCode::DatabaseQuery,
                "Database error occurred",
            ).with_details(text.as_str()),
        }
    }

    /// The error for an identifier that failed to parse as a UUID; `details`
    /// is what the parser said.
    pub fn from_uuid_error(details: &str) -> (e: Self)
        ensures
            e.is(ErrorCode::InvalidId, "Invalid UUID format"@, Some(details@)),
    {
        AppError::new(ErrorCode::InvalidId, "Invalid UUID format").with_details(details)
    }

    /// The error for a failed read or write; `details` is what the system
    /// said.
    pub fn from_io_error(details: &str) -> (e: Self)
        ensures
            e.is(ErrorCode::IoError, "I/O operation failed"@, Some(details@)),
    {
        AppError::new(ErrorCode::IoError, "I/O operation failed").with_details(details)
    }

    /// The error for a value that could not be turned into JSON or back;
    /// `details` is what the serialiser said.
    pub fn from_json_error(details: &str) -> (e: Self)
        ensures
            e.is(
                ErrorCode::InternalError,
                "JSON serialization/deserialization failed"@,
                Some(details@),
            ),
    {
        AppError::new(ErrorCode::InternalError, "JSON serialization/deserialization failed").with_details(
            details,
        )
    }

    /// The text shown for this error: its message.
    pub fn to_string(&self) -> (s: String)
        ensures
            s@ == self.message@,
    {
        self.message.clone()
    }
}

impl Clone for AppError {
    fn clone(&self) -> (e: Self)
        ensures
            e == *self,
    {
        AppError { code: self.code, message: self.message.clone(), details: clone_opt(&self.details) }
    }
}

} // verus!
