//! Core of a small certificate authority: a root trust anchor, leaf
//! certificate issuance chained to that anchor, a monotone revocation
//! ledger, an append-only audit trail, and a post-quantum detached
//! sign/verify engine, together with the request handler of the signing
//! gateway that fronts the issuer.

use vstd::prelude::*;

pub mod args;
pub mod audit;
pub mod ca;
pub mod engine;
pub mod gateway;

verus! {

/// Failure taxonomy of the certificate authority core.
///
/// Every operation either succeeds or reports exactly one of these; no
/// operation partially succeeds and reports success.
#[derive(Clone, Copy, Debug, PartialEq, Eq, Structural)]
pub enum Error {
    /// Durability failure in the trust store.
    StorageError,
    /// Key generation, signing, or certificate construction failed inside a
    /// cryptographic primitive.
    CryptoError,
    /// Root creation was attempted while a root anchor already exists and no
    /// overwrite was requested.
    AlreadyExists,
    /// Issuance was attempted while no root anchor exists.
    NoRootAnchor,
    /// An unsupported signature scheme was requested.
    UnknownAlgorithm,
    /// A signature verification returned false, surfaced as a user-visible
    /// failure rather than a crash.
    ValidationFailed,
    /// A malformed request body or argument.
    MalformedInput,
    /// Gateway authentication failure.
    Unauthorized,
    /// A validity window that is empty or reaches beyond what policy allows.
    ValidityOutOfRange,
}

pub type Result<T> = core::result::Result<T, Error>;

impl Error {
    /// A short human-readable description, for callers that render errors.
    pub fn message(&self) -> (r: &'static str)
        ensures
            r@.len() > 0,
    {
        proof {
            reveal_strlit("storage failure");
            reveal_strlit("cryptographic primitive failure");
            reveal_strlit("root CA already exists; use force to overwrite");
            reveal_strlit("no root anchor exists");
            reveal_strlit("unknown algorithm");
            reveal_strlit("verification failed");
            reveal_strlit("malformed input");
            reveal_strlit("unauthorized");
            reveal_strlit("validity window out of range");
        }
        match self {
            Error::StorageError => "storage failure",
            Error::CryptoError => "cryptographic primitive failure",
            Error::AlreadyExists => "root CA already exists; use force to overwrite",
            Error::NoRootAnchor => "no root anchor exists",
            Error::UnknownAlgorithm => "unknown algorithm",
            Error::ValidationFailed => "verification failed",
            Error::MalformedInput => "malformed input",
            Error::Unauthorized => "unauthorized",
            Error::ValidityOutOfRange => "validity window out of range",
        }
    }
}

} // verus!
