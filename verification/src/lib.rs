//! Skeleton of a deterministic smart-contract runtime binding: a fixed set of
//! entry points (instantiate, execute, query) over a versioned key-value state
//! store, with a canonical binary message codec, a closed error taxonomy, and
//! all-or-nothing failure semantics.

use vstd::prelude::*;

pub mod codec;
pub mod contract;
pub mod error;
pub mod exec;
pub mod msg;
pub mod query;
pub mod response;
pub mod state;

pub use crate::error::ContractError;

verus! {

/// The result type every entry point returns: either a success value or
/// exactly one of the closed error kinds.
pub type ContractResult<T> = Result<T, ContractError>;

} // verus!
