//! The closed set of failure kinds returned by every entry point. No internal
//! fault may escape an entry point unclassified: each is converted, at the
//! point of detection, into exactly one of these kinds.

use vstd::prelude::*;

use crate::state::ContractVersion;

verus! {

/// One failure kind per class of fault. Variants carry the data a caller
/// needs to understand the failure: the missing key, the detail string, or
/// the two versions that did not match.
#[derive(Debug, Clone, PartialEq)]
pub enum ContractError {
    /// The calling identity is not allowed to perform the operation.
    Unauthorized,
    /// An argument was rejected by the handler or the store.
    InvalidArgument(String),
    /// A key was read that the state store does not hold.
    NotFound(Vec<u8>),
    /// The version record was already written for this instance.
    AlreadyInitialized,
    /// A migration named a prior version other than the stored one:
    /// the expected version, and the stored one (`None` when no version
    /// record exists at all).
    VersionMismatch(ContractVersion, Option<ContractVersion>),
    /// A raw payload did not decode against the expected message shape.
    DecodeFailure(String),
    /// An internal fault that would otherwise escape unclassified; in this
    /// skeleton, an execute or query call made before a successful
    /// instantiate, when no entry point may observe the state yet.
    StateInvariantViolated(String),
    /// The handler for this message is an intentional placeholder, not yet
    /// written; distinct from a genuine runtime fault.
    Unimplemented,
}

} // verus!
