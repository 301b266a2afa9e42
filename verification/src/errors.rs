//! The closed set of failure kinds the core can report. The mapping to
//! transport-level status codes lives entirely in the surrounding glue.

use vstd::prelude::*;

verus! {

/// Failure taxonomy of the core.
///
/// `InvalidToken`: malformed token signature, structure or algorithm header.
/// `WrongCredential`: input validation failure or password mismatch.
/// `MissingCredential`: a required login field is empty.
/// `TokenCreation`: token signing failed.
/// `Unauthorized`: missing, expired or unresolvable credential.
/// `InternalServerError`: store/network failure or an impossible state, such
/// as a row missing a non-null field.
/// `UserDoesNotExist`: no user row for the given email or identifier.
/// `UserAlreadyExist`: duplicate registration.
/// `NotFound`: generic missing-row signal.
#[derive(Clone, Copy, Debug, PartialEq, Eq, Structural)]
pub enum AppError {
    InvalidToken,
    WrongCredential,
    MissingCredential,
    TokenCreation,
    Unauthorized,
    InternalServerError,
    UserDoesNotExist,
    UserAlreadyExist,
    NotFound,
}

/// The reason string shown to a caller for each failure kind.
pub open spec fn spec_reason(e: AppError) -> Seq<char> {
    match e {
        AppError::InvalidToken => "Invalid Token"@,
        AppError::WrongCredential => "Wrong Credentials"@,
        AppError::MissingCredential => "Missing Credentials"@,
        AppError::TokenCreation => "Failed to create Token"@,
        AppError::Unauthorized => "Unauthorized Request"@,
        AppError::InternalServerError => "Internal Server Error"@,
        AppError::UserDoesNotExist => "User does not Exist"@,
        AppError::UserAlreadyExist => "User already exist"@,
        AppError::NotFound => "Could not find resource"@,
    }
}

impl AppError {
    /// Structured reason string; never internal identifiers or raw store
    /// errors.
    pub fn reason(&self) -> (r: &'static str)
        ensures
            r@ == spec_reason(*self),
    {
        match self {
            AppError::InvalidToken => "Invalid Token",
            AppError::WrongCredential => "Wrong Credentials",
            AppError::MissingCredential => "Missing Credentials",
            AppError::TokenCreation => "Failed to create Token",
            AppError::Unauthorized => "Unauthorized Request",
            AppError::InternalServerError => "Internal Server Error",
            AppError::UserDoesNotExist => "User does not Exist",
            AppError::UserAlreadyExist => "User already exist",
            AppError::NotFound => "Could not find resource",
        }
    }
}

/// Outcome of a single store round trip, as the glue reports it to the core:
/// the row was missing, the store refused a uniqueness constraint, or the
/// store/network failed.
#[derive(Clone, Copy, Debug, PartialEq, Eq, Structural)]
pub enum StoreError {
    NotFound,
    Conflict,
    Internal,
}

} // verus!
