//! The error taxonomy: what is wrong with a submitted value, what a store
//! operation can fail with, and the single kind under which a failed request
//! is reported.

use vstd::prelude::*;
use vstd::string::*;

verus! {

/// Why a submitted value was rejected.
#[derive(Clone, Copy, Debug, PartialEq, Eq, Structural)]
pub enum ValidationError {
    /// The amount is empty once surrounding white space is removed.
    EmptyAmount,
    /// The amount is not a decimal number.
    InvalidAmountFormat,
    /// The amount is zero or negative.
    NonPositiveAmount,
    /// The source of an income is blank.
    EmptySource,
    /// The item name of an expense is blank.
    EmptyItemName,
    /// The first name of a user is blank.
    EmptyFirstName,
    /// The last name of a user is blank.
    EmptyLastName,
    /// The email address lacks `@` or `.`.
    InvalidEmail,
    /// The password has fewer than six characters.
    PasswordTooShort,
    /// The date is not a calendar date written as year-month-day.
    InvalidDate,
    /// The identifier is not a UUID.
    InvalidIdentifier,
}

impl ValidationError {
    /// The human-readable reason.
    pub open spec fn message_text(self) -> Seq<char> {
        match self {
            ValidationError::EmptyAmount => "Amount cannot be empty"@,
            ValidationError::InvalidAmountFormat => "Invalid amount format"@,
            ValidationError::NonPositiveAmount => "Amount must be greater than zero"@,
            ValidationError::EmptySource => "Source cannot be empty"@,
            ValidationError::EmptyItemName => "Item name cannot be empty"@,
            ValidationError::EmptyFirstName => "First name cannot be empty"@,
            ValidationError::EmptyLastName => "Last name cannot be empty"@,
            ValidationError::InvalidEmail => "Invalid email format"@,
            ValidationError::PasswordTooShort => "Password must be at least 6 characters long"@,
            ValidationError::InvalidDate => "Invalid date format"@,
            ValidationError::InvalidIdentifier => "Invalid identifier format"@,
        }
    }

    /// The human-readable reason, as an owned string.
    pub fn message(&self) -> (r: String)
        ensures
            r@ == self.message_text(),
    {
        let text: &str = match self {
            ValidationError::EmptyAmount => "Amount cannot be empty",
            ValidationError::InvalidAmountFormat => "Invalid amount format",
            ValidationError::NonPositiveAmount => "Amount must be greater than zero",
            ValidationError::EmptySource => "Source cannot be empty",
            ValidationError::EmptyItemName => "Item name cannot be empty",
            ValidationError::EmptyFirstName => "First name cannot be empty",
            ValidationError::EmptyLastName => "Last name cannot be empty",
            ValidationError::InvalidEmail => "Invalid email format",
            ValidationError::PasswordTooShort => "Password must be at least 6 characters long",
            ValidationError::InvalidDate => "Invalid date format",
            ValidationError::InvalidIdentifier => "Invalid identifier format",
        };
        text.to_owned()
    }
}

/// What an operation on the store can fail with.
#[derive(Clone, Copy, Debug, PartialEq, Eq, Structural)]
pub enum StoreError {
    /// No row matched the identifier, or the identifier and its owner.
    NotFound,
    /// A row with the same identifier is already stored.
    Conflict,
    /// The store could not be reached or failed unexpectedly.
    Unavailable,
}

/// The kind under which a failed request is reported.
#[derive(Clone, Copy, Debug, PartialEq, Eq, Structural)]
pub enum ErrorKind {
    Validation,
    NotFound,
    Internal,
}

/// The one error a failed request produces.
#[derive(Clone, Copy, Debug, PartialEq, Eq, Structural)]
pub enum AppError {
    /// The request was malformed; nothing was read or written.
    Validation(ValidationError),
    /// Nothing matched the identifier, or the identifier and its owner.
    NotFound,
    /// The store failed; no detail is passed on.
    Internal,
}

/// The failure side of the response envelope.
#[derive(Debug)]
pub struct ErrorResponse {
    pub status: u16,
    pub kind: ErrorKind,
    pub message: String,
}

impl AppError {
    /// The kind of this error.
    pub open spec fn kind_of(self) -> ErrorKind {
        match self {
            AppError::Validation(_) => ErrorKind::Validation,
            AppError::NotFound => ErrorKind::NotFound,
            AppError::Internal => ErrorKind::Internal,
        }
    }

    /// The HTTP-style status of this error.
    pub open spec fn status_of(self) -> u16 {
        match self {
            AppError::Validation(_) => 400,
            AppError::NotFound => 404,
            AppError::Internal => 500,
        }
    }

    /// The message carried to the caller. An internal failure gives no detail.
    pub open spec fn message_text(self) -> Seq<char> {
        match self {
            AppError::Validation(e) => e.message_text(),
            AppError::NotFound => "Record not found"@,
            AppError::Internal => "Internal server error"@,
        }
    }

    /// How a failure of the store is reported: a missing row as `NotFound`,
    /// anything else as `Internal`.
    pub open spec fn of_store_error(e: StoreError) -> AppError {
        match e {
            StoreError::NotFound => AppError::NotFound,
            StoreError::Conflict => AppError::Internal,
            StoreError::Unavailable => AppError::Internal,
        }
    }

    pub fn kind(&self) -> (r: ErrorKind)
        ensures
            r == self.kind_of(),
    {
        match self {
            AppError::Validation(_) => ErrorKind::Validation,
            AppError::NotFound => ErrorKind::NotFound,
            AppError::Internal => ErrorKind::Internal,
        }
    }

    pub fn status_code(&self) -> (r: u16)
        ensures
            r == self.status_of(),
    {
        match self {
            AppError::Validation(_) => 400,
            AppError::NotFound => 404,
            AppError::Internal => 500,
        }
    }

    pub fn message(&self) -> (r: String)
        ensures
            r@ == self.message_text(),
    {
        match self {
            AppError::Validation(e) => e.message(),
            AppError::NotFound => "Record not found".to_owned(),
            AppError::Internal => "Internal server error".to_owned(),
        }
    }

    /// The failure envelope for this error.
    pub fn error_response(&self) -> (r: ErrorResponse)
        ensures
            r.status == self.status_of(),
            r.kind == self.kind_of(),
            r.message@ == self.message_text(),
    {
        ErrorResponse { status: self.status_code(), kind: self.kind(), message: self.message() }
    }
}

impl From<ValidationError> for AppError {
    fn from(e: ValidationError) -> (r: AppError) {
        AppError::Validation(e)
    }
}

impl vstd::std_specs::convert::FromSpecImpl<ValidationError> for AppError {
    open spec fn obeys_from_spec() -> bool {
        true
    }

    open spec fn from_spec(e: ValidationError) -> AppError {
        AppError::Validation(e)
    }
}

impl From<StoreError> for AppError {
    fn from(e: StoreError) -> (r: AppError) {
        match e {
            StoreError::NotFound => AppError::NotFound,
            StoreError::Conflict => AppError::Internal,
            StoreError::Unavailable => AppError::Internal,
        }
    }
}

impl vstd::std_specs::convert::FromSpecImpl<StoreError> for AppError {
    open spec fn obeys_from_spec() -> bool {
        true
    }

    open spec fn from_spec(e: StoreError) -> AppError {
        AppError::of_store_error(e)
    }
}

} // verus!
