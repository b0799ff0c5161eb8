//! The errors the handlers answer with, and the faults of their collaborators.
use vstd::prelude::*;

verus! {

/// A defect in the fields of a registration.
#[derive(Debug, Clone, Copy, PartialEq, Eq, Structural)]
pub enum ValidationError {
    EmptyLastName,
    EmptyFirstName,
    EmptyUsername,
    EmptyEmail,
    EmptyPassword,
    WeakPassword,
    UsernameTaken,
}

/// What a handler answers with when it does not succeed.
#[derive(Debug, Clone, Copy, PartialEq, Eq, Structural)]
pub enum ServiceError {
    /// The input was refused; the message says why.
    Validation(ValidationError),
    /// Login refused, whatever check failed.
    InvalidCredentials,
    /// A storage, hashing or integrity fault.
    Internal,
}

/// Why no secret could be read for a username.
#[derive(Debug, Clone, Copy, PartialEq, Eq, Structural)]
pub enum SecretError {
    NotFound,
    Ambiguous,
    Storage,
}

/// The document store could not carry out a request.
#[derive(Debug, Clone, Copy, PartialEq, Eq, Structural)]
pub struct StoreFault;

/// The password hasher could not carry out a request (a malformed digest).
#[derive(Debug, Clone, Copy, PartialEq, Eq, Structural)]
pub struct HashFault;

impl ValidationError {
    pub open spec fn message_of(self) -> Seq<char> {
        match self {
            ValidationError::EmptyLastName => "Last name cannot be empty"@,
            ValidationError::EmptyFirstName => "First name cannot be empty"@,
            ValidationError::EmptyUsername => "Username cannot be empty"@,
            ValidationError::EmptyEmail => "Email cannot be empty"@,
            ValidationError::EmptyPassword => "Password cannot be empty"@,
            ValidationError::WeakPassword => "Password is too weak"@,
            ValidationError::UsernameTaken => "Username is already taken"@,
        }
    }

    /// The message shown to the client.
    pub fn message(&self) -> (r: &'static str)
        ensures
            r@ == self.message_of(),
    {
        match self {
            ValidationError::EmptyLastName => "Last name cannot be empty",
            ValidationError::EmptyFirstName => "First name cannot be empty",
            ValidationError::EmptyUsername => "Username cannot be empty",
            ValidationError::EmptyEmail => "Email cannot be empty",
            ValidationError::EmptyPassword => "Password cannot be empty",
            ValidationError::WeakPassword => "Password is too weak",
            ValidationError::UsernameTaken => "Username is already taken",
        }
    }
}

impl ServiceError {
    pub open spec fn status_of(self) -> u16 {
        match self {
            ServiceError::Internal => 500,
            _ => 400,
        }
    }

    pub open spec fn message_of(self) -> Seq<char> {
        match self {
            ServiceError::Validation(v) => v.message_of(),
            ServiceError::InvalidCredentials => "Your credentials are wrong"@,
            ServiceError::Internal => "Internal Server Error"@,
        }
    }

    /// The HTTP status: 500 for an internal fault, 400 otherwise.
    pub fn status_code(&self) -> (r: u16)
        ensures
            r == self.status_of(),
    {
        match self {
            ServiceError::Internal => 500,
            _ => 400,
        }
    }

    /// The message shown to the client.
    pub fn message(&self) -> (r: &'static str)
        ensures
            r@ == self.message_of(),
    {
        match self {
            ServiceError::Validation(v) => v.message(),
            ServiceError::InvalidCredentials => "Your credentials are wrong",
            ServiceError::Internal => "Internal Server Error",
        }
    }
}

} // verus!
