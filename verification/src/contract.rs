//! The instantiate entry point: callable exactly once per instance. It
//! decodes the raw payload, writes the version record through the store's
//! exactly-once gate, invokes the contract-specific initialization handler,
//! and returns the success envelope with the attribute `method =
//! "instantiate"`. Every failure is terminal and leaves the state store
//! byte-identical to before the call.

use vstd::prelude::*;

use crate::error::ContractError;
use crate::msg::decode_instantiate;
use crate::msg::decode_instantiate_spec;
use crate::msg::Env;
use crate::msg::InstantiateMsg;
use crate::msg::MessageInfo;
use crate::response::AttributeView;
use crate::response::Response;
use crate::state::version_key;
use crate::state::version_record_bytes;
use crate::state::ContractVersion;
use crate::state::StateStore;
use crate::ContractResult;

verus! {

/// The contract-specific initialization handler. In this skeleton the
/// persisted state holds nothing beyond the version record, so the handler
/// has nothing to write and always succeeds; a concrete contract fills in
/// its own state here.
fn handle_instantiate(
    _env: &Env,
    _info: &MessageInfo,
    _msg: &InstantiateMsg,
) -> (r: ContractResult<()>)
    ensures
        r is Ok,
{
    Ok(())
}

/// The once-only entry point of the lifecycle. `config` is the contract
/// name and version this deployment declares, passed in explicitly rather
/// than compiled in.
///
/// On a payload that does not decode, it fails with `DecodeFailure`; on a
/// second call, with `AlreadyInitialized`; and any failure leaves the store
/// unchanged (all-or-nothing). On a fresh instance with a well-formed
/// payload it succeeds: the version record is written and the envelope
/// carries exactly the attribute `method = "instantiate"`.
pub fn instantiate(
    store: &mut StateStore,
    env: &Env,
    info: &MessageInfo,
    config: &ContractVersion,
    payload: &Vec<u8>,
) -> (r: ContractResult<Response>)
    requires
        old(store).wf(),
    ensures
        final(store).wf(),
        !decode_instantiate_spec(payload@) ==> (r matches Err(e) && e matches
            ContractError::DecodeFailure(d) && d@
            == "the payload is not a well-formed instantiate message"@),
        decode_instantiate_spec(payload@) && old(store)@.version is Some ==> (r matches Err(e)
            && e is AlreadyInitialized),
        decode_instantiate_spec(payload@) && old(store)@.version is None ==> (r matches Ok(resp)
            && final(store)@.version == Some(config@)
            && final(store)@.entries == old(store)@.entries.insert(
                version_key(),
                version_record_bytes(config@.name, config@.version),
            )
            && resp@.attributes == seq![AttributeView { key: "method"@, value: "instantiate"@ }]
            && resp@.messages.len() == 0
            && resp@.events.len() == 0
            && resp@.data is None),
        r is Err ==> final(store)@ == old(store)@,
{
    let msg = match decode_instantiate(payload) {
        Some(m) => m,
        None => {
            return Err(
                ContractError::DecodeFailure(
                    "the payload is not a well-formed instantiate message".to_owned(),
                ),
            );
        },
    };
    match store.initialize_version(config) {
        Ok(_) => (),
        Err(e) => {
            return Err(e);
        },
    }
    match handle_instantiate(env, info, &msg) {
        Ok(_) => (),
        Err(e) => {
            return Err(e);
        },
    }
    let resp = Response::new().add_attribute("method", "instantiate");
    proof {
        assert(resp@.attributes =~= seq![
            AttributeView { key: "method"@, value: "instantiate"@ },
        ]);
    }
    Ok(resp)
}

} // verus!
