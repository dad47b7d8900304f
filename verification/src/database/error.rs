//! The errors of the database layer.

use vstd::prelude::*;
use vstd::string::StringExecFns;

verus! {

/// A failure of the database layer. Where the failure came from the database
/// driver or from the serialiser, the variant holds its text.
#[derive(Debug)]
pub enum DatabaseError {
    ConnectionError(String),
    MigrationError(String),
    QueryError(String),
    NotFound { entity: String },
    ValidationError(String),
    SerializationError(String),
    SecurityError(String),
}

/// The result of an operation of the database layer.
pub type DatabaseResult<T> = Result<T, DatabaseError>;

impl DatabaseError {
    /// What introduces the text of an error of this kind.
    pub open spec fn prefix(self) -> Seq<char> {
        match self {
            DatabaseError::ConnectionError(_) => "Database connection error: "@,
            DatabaseError::MigrationError(_) => "Migration error: "@,
            DatabaseError::QueryError(_) => "Query error: "@,
            DatabaseError::NotFound { .. } => "Entity not found: "@,
            DatabaseError::ValidationError(_) => "Validation error: "@,
            DatabaseError::SerializationError(_) => "Serialization error: "@,
            DatabaseError::SecurityError(_) => "Security error: "@,
        }
    }

    /// What the error holds: its message, or the entity that was not found.
    pub open spec fn detail(self) -> Seq<char> {
        match self {
            DatabaseError::ConnectionError(m) => m@,
            DatabaseError::MigrationError(m) => m@,
            DatabaseError::QueryError(m) => m@,
            DatabaseError::NotFound { entity } => entity@,
            DatabaseError::ValidationError(m) => m@,
            DatabaseError::SerializationError(m) => m@,
            DatabaseError::SecurityError(m) => m@,
        }
    }

    /// Whether this is a security error with the message `message`.
    pub open spec fn is_security(self, message: Seq<char>) -> bool {
        self matches DatabaseError::SecurityError(m) && m@ == message
    }

    /// The text shown for the error.
    pub fn to_string(&self) -> (s: String)
        ensures
            s@ == self.prefix() + self.detail(),
    {
        match self {
            DatabaseError::ConnectionError(m) => {
                let mut s = "Database connection error: ".to_owned();
                s.append(m.as_str());
                s
            },
            DatabaseError::MigrationError(m) => {
                let mut s = "Migration error: ".to_owned();
                s.append(m.as_str());
                s
            },
            DatabaseError::QueryError(m) => {
                let mut s = "Query error: ".to_owned();
                s.append(m.as_str());
                s
            },
            DatabaseError::NotFound { entity } => {
                let mut s = "Entity not found: ".to_owned();
                s.append(entity.as_str());
                s
            },
            DatabaseError::ValidationError(m) => {
                let mut s = "Validation error: ".to_owned();
                s.append(m.as_str());
                s
            },
            DatabaseError::SerializationError(m) => {
                let mut s = "Serialization error: ".to_owned();
                s.append(m.as_str());
                s
            },
            DatabaseError::SecurityError(m) => {
                let mut s = "Security error: ".to_owned();
                s.append(m.as_str());
                s
            },
        }
    }
}

} // verus!
