//! Error taxonomy of the access-control core.
//!
//! Every fallible operation of the library reports one of these variants;
//! none of them is ever swallowed silently.

use vstd::prelude::*;
use vstd::string::*;

verus! {

/// A typed failure surfaced to the caller of a reconciliation or
/// enforcement operation.
#[derive(Debug, Clone)]
pub enum Error {
    /// A hardware address (or a set/table name destined for the
    /// enforcement tool) failed canonical-format validation.
    ValidationError,
    /// The neighbor cache holds no entry for the requested address.
    NoMappingForAddress,
    /// The matching neighbor-cache entry carries no link-layer address.
    MissingHardwareAddress,
    /// The hardware address is already registered under a different identity.
    OwnershipConflict,
    /// A Control Protocol call could not complete; the payload is the
    /// diagnostic text returned by the remote side.
    TransportFailure(String),
    /// The enforcement tool exited non-zero or produced output the
    /// backend could not interpret; the payload is the diagnostic text.
    EnforcementToolFailure(String),
    /// The storage collaborator failed.
    StorageFailure,
    /// No identity exists under the requested id.
    UserDoesNotExist,
    /// A login or profile credential was rejected.
    InvalidCredential,
    /// The authorization header is not a well-formed bearer header.
    AuthorizationHeaderMalformed,
}

/// The diagnostic text carried by each error variant.
pub open spec fn spec_error_message(e: Error) -> Seq<char> {
    match e {
        Error::ValidationError => "validation error"@,
        Error::NoMappingForAddress => "no neighbor-cache mapping for this address"@,
        Error::MissingHardwareAddress => "neighbor-cache entry has no hardware address"@,
        Error::OwnershipConflict => "hardware address belongs to another identity"@,
        Error::TransportFailure(detail) => "router error: "@ + detail@,
        Error::EnforcementToolFailure(detail) => "enforcement tool failed: "@ + detail@,
        Error::StorageFailure => "storage failure"@,
        Error::UserDoesNotExist => "user not found"@,
        Error::InvalidCredential => "invalid username or password"@,
        Error::AuthorizationHeaderMalformed => "authorization header malformed"@,
    }
}

impl Error {
    /// Diagnostic text of this error, suitable for a failure response body.
    pub fn message(&self) -> (r: String)
        ensures
            r@ == spec_error_message(*self),
    {
        match self {
            Error::ValidationError => String::from_str("validation error"),
            Error::NoMappingForAddress => {
                String::from_str("no neighbor-cache mapping for this address")
            },
            Error::MissingHardwareAddress => {
                String::from_str("neighbor-cache entry has no hardware address")
            },
            Error::OwnershipConflict => {
                String::from_str("hardware address belongs to another identity")
            },
            Error::TransportFailure(detail) => {
                String::from_str("router error: ").concat(detail.as_str())
            },
            Error::EnforcementToolFailure(detail) => {
                String::from_str("enforcement tool failed: ").concat(detail.as_str())
            },
            Error::StorageFailure => String::from_str("storage failure"),
            Error::UserDoesNotExist => String::from_str("user not found"),
            Error::InvalidCredential => String::from_str("invalid username or password"),
            Error::AuthorizationHeaderMalformed => {
                String::from_str("authorization header malformed")
            },
        }
    }
}

} // verus!
