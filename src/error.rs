use vstd::prelude::*;

verus! {

/// The kinds of failure that store and verification operations report.
#[derive(Clone, Copy, Debug, PartialEq, Eq, Structural)]
pub enum StoreError {
    /// A user or post id did not resolve.
    NotFound,
    /// An insert used an id that is already present.
    Conflict,
    /// The supplied token does not match the stored one.
    Unauthorized,
    /// A feed offset lies past the end of the feed.
    OutOfRange,
    /// A phone number could not be parsed or is not a valid number.
    InvalidPhoneNumber,
    /// The verification provider was unreachable or answered in an unexpected shape.
    ProviderError,
    /// The verification provider rejected the submitted code.
    VerificationFailed,
    /// A snapshot could not be read or written.
    PersistenceError,
    /// The system clock or the random source could not be read.
    SystemFailure,
}

impl StoreError {
    /// A short human-readable description of the error.
    pub fn message(&self) -> (r: String) {
        match self {
            StoreError::NotFound => String::from_str("Not found"),
            StoreError::Conflict => String::from_str("Already exists"),
            StoreError::Unauthorized => String::from_str("Invalid token"),
            StoreError::OutOfRange => String::from_str("Index out of bounds"),
            StoreError::InvalidPhoneNumber => String::from_str("Invalid phone number"),
            StoreError::ProviderError => String::from_str("Verification provider error"),
            StoreError::VerificationFailed => String::from_str("Invalid verification code"),
            StoreError::PersistenceError => String::from_str("Persistence error"),
            StoreError::SystemFailure => String::from_str("System clock or random source unavailable"),
        }
    }
}

} // verus!
