//! Errors of the application layer and of the layers below it.
use vstd::prelude::*;
use vstd::string::StringExecFns;

verus! {

/// What can go wrong while a submission is handled.
#[derive(Debug)]
pub enum AppError {
    DatabaseError(String),
    NotFound(String),
    Unauthorised(String),
    InternalError,
    ValidationError(String),
}

/// A rule of the domain that a value broke.
#[derive(Debug)]
pub enum DomainError {
    /// The text names none of the message categories.
    InvalidCategory(String),
}

/// A failure of the message store.
#[derive(Debug)]
pub enum RepositoryError {
    DatabaseError(String),
}

impl AppError {
    /// The text that describes this error: a fixed label, followed by the
    /// detail where the variant carries one.
    pub open spec fn description(self) -> Seq<char> {
        match self {
            AppError::DatabaseError(msg) => "Database error: "@ + msg@,
            AppError::NotFound(msg) => "Not found: "@ + msg@,
            AppError::Unauthorised(msg) => "Unauthorised: "@ + msg@,
            AppError::InternalError => "Internal server error"@,
            AppError::ValidationError(msg) => "Validation error: "@ + msg@,
        }
    }

    pub fn to_string(&self) -> (r: String)
        ensures
            r@ == self.description(),
    {
        match self {
            AppError::DatabaseError(msg) => String::from_str("Database error: ").concat(
                msg.as_str(),
            ),
            AppError::NotFound(msg) => String::from_str("Not found: ").concat(msg.as_str()),
            AppError::Unauthorised(msg) => String::from_str("Unauthorised: ").concat(msg.as_str()),
            AppError::InternalError => String::from_str("Internal server error"),
            AppError::ValidationError(msg) => String::from_str("Validation error: ").concat(
                msg.as_str(),
            ),
        }
    }
}

impl DomainError {
    pub open spec fn description(self) -> Seq<char> {
        match self {
            DomainError::InvalidCategory(text) => "Category '"@ + text@ + "' is invalid"@,
        }
    }

    pub fn to_string(&self) -> (r: String)
        ensures
            r@ == self.description(),
    {
        match self {
            DomainError::InvalidCategory(text) => String::from_str("Category '").concat(
                text.as_str(),
            ).concat("' is invalid"),
        }
    }
}

impl RepositoryError {
    pub open spec fn description(self) -> Seq<char> {
        match self {
            RepositoryError::DatabaseError(msg) => "Database error: "@ + msg@,
        }
    }

    pub fn to_string(&self) -> (r: String)
        ensures
            r@ == self.description(),
    {
        match self {
            RepositoryError::DatabaseError(msg) => String::from_str("Database error: ").concat(
                msg.as_str(),
            ),
        }
    }
}

} // verus!
