//! The execute entry point: repeatable, requires a prior successful
//! instantiate, and dispatches the decoded message by its tag to the
//! matching handler with a mutable state scope. A handler failure aborts
//! the whole call's state effects: every error return leaves the store
//! byte-identical to before the call.

use vstd::prelude::*;

use crate::error::ContractError;
use crate::msg::decode_execute;
use crate::msg::decode_execute_spec;
use crate::msg::Env;
use crate::msg::ExecuteMsgView;
use crate::msg::ExecuteMsg;
use crate::msg::MessageInfo;
use crate::response::AttributeView;
use crate::response::Response;
use crate::state::version_key;
use crate::state::StateStore;
use crate::ContractResult;

verus! {

/// The repeatable state-mutating entry point.
///
/// A payload that does not decode — an unknown tag included — fails with
/// `DecodeFailure`; a call before a successful instantiate fails with
/// `StateInvariantViolated`; the set-entry message overwrites one
/// contract-defined key (the protected version key and empty values are
/// refused); the placeholder message reports `Unimplemented`. Any error
/// return leaves the store unchanged (all-or-nothing).
pub fn execute(
    store: &mut StateStore,
    _env: &Env,
    _info: &MessageInfo,
    payload: &Vec<u8>,
) -> (r: ContractResult<Response>)
    requires
        old(store).wf(),
    ensures
        final(store).wf(),
        decode_execute_spec(payload@) is None ==> (r matches Err(e) && e matches
            ContractError::DecodeFailure(d) && d@
            == "the payload is not a well-formed execute message"@),
        decode_execute_spec(payload@) is Some && old(store)@.version is None ==> (r matches Err(e)
            && e matches ContractError::StateInvariantViolated(d) && d@
            == "execute requires a prior successful instantiate"@),
        old(store)@.version is Some ==> (decode_execute_spec(payload@) matches Some(m) ==> match m {
            ExecuteMsgView::SetEntry { key, value } => (key == version_key() ==> (r matches Err(e)
                && e matches ContractError::InvalidArgument(d) && d@
                == "the version key is protected"@)) && ((key != version_key() && value.len() == 0)
                ==> (r matches Err(e) && e matches ContractError::InvalidArgument(d) && d@
                == "an empty value cannot be stored"@)) && ((key != version_key()
                && value.len() > 0) ==> (r matches Ok(resp)
                && final(store)@.entries == old(store)@.entries.insert(key, value)
                && final(store)@.version == old(store)@.version
                && resp@.attributes == seq![AttributeView { key: "method"@, value: "execute"@ }]
                && resp@.messages.len() == 0
                && resp@.events.len() == 0
                && resp@.data is None)),
            ExecuteMsgView::Placeholder => r matches Err(e) && e is Unimplemented,
        }),
        r is Err ==> final(store)@ == old(store)@,
{
    let msg = match decode_execute(payload) {
        Some(m) => m,
        None => {
            return Err(
                ContractError::DecodeFailure(
                    "the payload is not a well-formed execute message".to_owned(),
                ),
            );
        },
    };
    if store.version().is_none() {
        return Err(
            ContractError::StateInvariantViolated(
                "execute requires a prior successful instantiate".to_owned(),
            ),
        );
    }
    match msg {
        ExecuteMsg::SetEntry { key, value } => {
            match store.set(&key, &value) {
                Ok(_) => {
                    let resp = Response::new().add_attribute("method", "execute");
                    proof {
                        assert(resp@.attributes =~= seq![
                            AttributeView { key: "method"@, value: "execute"@ },
                        ]);
                    }
                    Ok(resp)
                },
                Err(e) => Err(e),
            }
        },
        ExecuteMsg::Placeholder => Err(ContractError::Unimplemented),
    }
}

} // verus!
