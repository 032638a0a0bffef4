//! The query entry point: repeatable, requires a prior successful
//! instantiate, and read-only by construction — it takes the state store by
//! shared reference, so no write is possible, not merely forbidden by
//! convention.

use vstd::prelude::*;

use crate::error::ContractError;
use crate::msg::decode_query;
use crate::msg::decode_query_spec;
use crate::msg::Env;
use crate::msg::QueryMsg;
use crate::msg::QueryMsgView;
use crate::state::StateStore;
use crate::ContractResult;

verus! {

/// The read-only entry point. The decoded message dispatches by its tag:
/// get-entry returns the stored value bytes as the opaque return data, or
/// `NotFound` carrying the key; the placeholder reports `Unimplemented`. A
/// payload that does not decode — an unknown tag included — fails with
/// `DecodeFailure`. A call before a successful instantiate fails with
/// `StateInvariantViolated`.
pub fn query(store: &StateStore, _env: &Env, payload: &Vec<u8>) -> (r: ContractResult<Vec<u8>>)
    ensures
        decode_query_spec(payload@) is None ==> (r matches Err(e) && e matches
            ContractError::DecodeFailure(d) && d@
            == "the payload is not a well-formed query message"@),
        decode_query_spec(payload@) is Some && store@.version is None ==> (r matches Err(e)
            && e matches ContractError::StateInvariantViolated(d) && d@
            == "query requires a prior successful instantiate"@),
        store@.version is Some ==> (decode_query_spec(payload@) matches Some(m) ==> match m {
            QueryMsgView::GetEntry { key } => (store@.entries.contains_key(key) ==> (r matches Ok(
                v,
            ) && v@ == store@.entries[key])) && (!store@.entries.contains_key(key) ==> (
            r matches Err(e) && e matches ContractError::NotFound(k) && k@ == key)),
            QueryMsgView::Placeholder => r matches Err(e) && e is Unimplemented,
        }),
{
    let msg = match decode_query(payload) {
        Some(m) => m,
        None => {
            return Err(
                ContractError::DecodeFailure(
                    "the payload is not a well-formed query message".to_owned(),
                ),
            );
        },
    };
    if store.version().is_none() {
        return Err(
            ContractError::StateInvariantViolated(
                "query requires a prior successful instantiate".to_owned(),
            ),
        );
    }
    match msg {
        QueryMsg::GetEntry { key } => store.get(&key),
        QueryMsg::Placeholder => Err(ContractError::Unimplemented),
    }
}

} // verus!
