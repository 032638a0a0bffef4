//! Typed inbound messages, the call context records, and the canonical
//! binary codec between raw payloads and typed messages. Decoding is strict:
//! a payload either decodes into exactly one variant or is rejected; trailing
//! bytes and unknown tags are decode failures, never silently ignored.
//!
//! Wire shapes, one per entry point:
//! - instantiate payload: empty (the instantiate message carries no fields);
//! - execute payload: tag byte `1` followed by a length-delimited key and a
//!   length-delimited value (set-entry), or the single tag byte `2`
//!   (placeholder);
//! - query payload: tag byte `1` followed by a length-delimited key
//!   (get-entry), or the single tag byte `2` (placeholder).
//!
//! Lengths are 32-bit little-endian. Encoding is a pure function of the
//! typed value, so identical messages encode to identical bytes.

use vstd::prelude::*;

use crate::codec::le_u32;
use crate::codec::lemma_u32_le_round_trip;
use crate::codec::read_bytes;
use crate::codec::read_u32_le;
use crate::codec::u32_le;
use crate::codec::write_bytes;
use crate::codec::write_u32_le;

verus! {

/// Execute payload tag of the set-entry message.
pub const TAG_EXEC_SET_ENTRY: u8 = 1;

/// Execute payload tag of the placeholder message.
pub const TAG_EXEC_PLACEHOLDER: u8 = 2;

/// Query payload tag of the get-entry message.
pub const TAG_QUERY_GET_ENTRY: u8 = 1;

/// Query payload tag of the placeholder message.
pub const TAG_QUERY_PLACEHOLDER: u8 = 2;

/// One coin of the funds attached to a call: a denomination and an amount.
#[derive(Debug, Clone, PartialEq)]
pub struct Coin {
    pub denom: String,
    pub amount: u128,
}

/// The block context the host environment hands to every entry point.
#[derive(Debug, Clone, PartialEq)]
pub struct Env {
    pub block_height: u64,
    pub block_time_nanos: u64,
}

/// The calling identity and the funds attached to the call.
#[derive(Debug, Clone, PartialEq)]
pub struct MessageInfo {
    pub sender: String,
    pub funds: Vec<Coin>,
}

/// The instantiate message. The skeleton's instantiation takes no fields;
/// the contract name and version are handed to the entry point as an
/// explicit configuration value instead of compiled-in globals.
#[derive(Debug, Clone, PartialEq)]
pub struct InstantiateMsg {}

/// One execute message per tag: a state write, or the intentional
/// placeholder for business logic not yet written.
#[derive(Debug, Clone, PartialEq)]
pub enum ExecuteMsg {
    /// Overwrite one contract-defined key with a value.
    SetEntry { key: Vec<u8>, value: Vec<u8> },
    /// A handler deliberately left unwritten; executing it reports
    /// `Unimplemented`.
    Placeholder,
}

/// One query message per tag: a state read, or the intentional placeholder.
#[derive(Debug, Clone, PartialEq)]
pub enum QueryMsg {
    /// Read one key of the state store.
    GetEntry { key: Vec<u8> },
    /// A handler deliberately left unwritten; querying it reports
    /// `Unimplemented`.
    Placeholder,
}

/// Mathematical image of an [`ExecuteMsg`].
pub ghost enum ExecuteMsgView {
    SetEntry { key: Seq<u8>, value: Seq<u8> },
    Placeholder,
}

/// Mathematical image of a [`QueryMsg`].
pub ghost enum QueryMsgView {
    GetEntry { key: Seq<u8> },
    Placeholder,
}

impl View for ExecuteMsg {
    type V = ExecuteMsgView;

    open spec fn view(&self) -> ExecuteMsgView {
        match self {
            ExecuteMsg::SetEntry { key, value } => ExecuteMsgView::SetEntry {
                key: key@,
                value: value@,
            },
            ExecuteMsg::Placeholder => ExecuteMsgView::Placeholder,
        }
    }
}

impl View for QueryMsg {
    type V = QueryMsgView;

    open spec fn view(&self) -> QueryMsgView {
        match self {
            QueryMsg::GetEntry { key } => QueryMsgView::GetEntry { key: key@ },
            QueryMsg::Placeholder => QueryMsgView::Placeholder,
        }
    }
}

/// A message fits the wire format when each length field fits in 32 bits.
pub open spec fn execute_msg_wf(m: ExecuteMsgView) -> bool {
    match m {
        ExecuteMsgView::SetEntry { key, value } => key.len() <= u32::MAX && value.len()
            <= u32::MAX,
        ExecuteMsgView::Placeholder => true,
    }
}

/// A query message fits the wire format when its length field fits in 32
/// bits.
pub open spec fn query_msg_wf(m: QueryMsgView) -> bool {
    match m {
        QueryMsgView::GetEntry { key } => key.len() <= u32::MAX,
        QueryMsgView::Placeholder => true,
    }
}

/// The canonical bytes of the instantiate message: it has no fields, so its
/// encoding is empty.
pub open spec fn encode_instantiate_spec() -> Seq<u8> {
    Seq::empty()
}

/// Strict decoding of an instantiate payload: only the exact canonical
/// encoding is accepted; any trailing byte is rejected.
pub open spec fn decode_instantiate_spec(raw: Seq<u8>) -> bool {
    raw == encode_instantiate_spec()
}

/// The canonical bytes of an execute message.
pub open spec fn encode_execute_spec(m: ExecuteMsgView) -> Seq<u8> {
    match m {
        ExecuteMsgView::SetEntry { key, value } => seq![TAG_EXEC_SET_ENTRY] + u32_le(
            key.len() as u32,
        ) + key + u32_le(value.len() as u32) + value,
        ExecuteMsgView::Placeholder => seq![TAG_EXEC_PLACEHOLDER],
    }
}

/// Strict decoding of an execute payload: exactly one variant per tag, with
/// every length field checked and no trailing bytes tolerated.
pub open spec fn decode_execute_spec(raw: Seq<u8>) -> Option<ExecuteMsgView> {
    if raw.len() < 1 {
        None
    } else if raw[0] == TAG_EXEC_SET_ENTRY {
        if raw.len() < 5 {
            None
        } else {
            let klen = le_u32(raw.subrange(1, 5)) as int;
            if raw.len() < 9 + klen {
                None
            } else {
                let vlen = le_u32(raw.subrange(5 + klen, 9 + klen)) as int;
                if raw.len() == 9 + klen + vlen {
                    Some(
                        ExecuteMsgView::SetEntry {
                            key: raw.subrange(5, 5 + klen),
                            value: raw.subrange(9 + klen, 9 + klen + vlen),
                        },
                    )
                } else {
                    None
                }
            }
        }
    } else if raw[0] == TAG_EXEC_PLACEHOLDER {
        if raw.len() == 1 {
            Some(ExecuteMsgView::Placeholder)
        } else {
            None
        }
    } else {
        None
    }
}

/// The canonical bytes of a query message.
pub open spec fn encode_query_spec(m: QueryMsgView) -> Seq<u8> {
    match m {
        QueryMsgView::GetEntry { key } => seq![TAG_QUERY_GET_ENTRY] + u32_le(key.len() as u32)
            + key,
        QueryMsgView::Placeholder => seq![TAG_QUERY_PLACEHOLDER],
    }
}

/// Strict decoding of a query payload.
pub open spec fn decode_query_spec(raw: Seq<u8>) -> Option<QueryMsgView> {
    if raw.len() < 1 {
        None
    } else if raw[0] == TAG_QUERY_GET_ENTRY {
        if raw.len() < 5 {
            None
        } else {
            let klen = le_u32(raw.subrange(1, 5)) as int;
            if raw.len() == 5 + klen {
                Some(QueryMsgView::GetEntry { key: raw.subrange(5, 5 + klen) })
            } else {
                None
            }
        }
    } else if raw[0] == TAG_QUERY_PLACEHOLDER {
        if raw.len() == 1 {
            Some(QueryMsgView::Placeholder)
        } else {
            None
        }
    } else {
        None
    }
}

/// Encodes the instantiate message into its canonical bytes.
pub fn encode_instantiate(_m: &InstantiateMsg) -> (r: Vec<u8>)
    ensures
        r@ == encode_instantiate_spec(),
{
    let r: Vec<u8> = Vec::new();
    proof {
        assert(r@ =~= encode_instantiate_spec());
    }
    r
}

/// Decodes an instantiate payload; `None` is a decode failure.
pub fn decode_instantiate(raw: &Vec<u8>) -> (r: Option<InstantiateMsg>)
    ensures
        r is Some <==> decode_instantiate_spec(raw@),
{
    if raw.len() == 0 {
        proof {
            assert(raw@ =~= encode_instantiate_spec());
        }
        Some(InstantiateMsg {})
    } else {
        None
    }
}

/// Encodes an execute message into its canonical bytes.
pub fn encode_execute(m: &ExecuteMsg) -> (r: Vec<u8>)
    requires
        execute_msg_wf(m@),
    ensures
        r@ == encode_execute_spec(m@),
{
    let mut out: Vec<u8> = Vec::new();
    match m {
        ExecuteMsg::SetEntry { key, value } => {
            out.push(TAG_EXEC_SET_ENTRY);
            write_u32_le(&mut out, key.len() as u32);
            write_bytes(&mut out, key);
            write_u32_le(&mut out, value.len() as u32);
            write_bytes(&mut out, value);
        },
        ExecuteMsg::Placeholder => {
            out.push(TAG_EXEC_PLACEHOLDER);
        },
    }
    proof {
        assert(out@ =~= encode_execute_spec(m@));
    }
    out
}

/// Decodes an execute payload; `None` is a decode failure.
pub fn decode_execute(raw: &Vec<u8>) -> (r: Option<ExecuteMsg>)
    ensures
        r is Some <==> decode_execute_spec(raw@) is Some,
        r matches Some(m) ==> decode_execute_spec(raw@) == Some(m@),
{
    let n = raw.len();
    if n < 1 {
        return None;
    }
    let tag = raw[0];
    if tag == TAG_EXEC_SET_ENTRY {
        if n < 5 {
            return None;
        }
        let klen = read_u32_le(raw, 1) as usize;
        if n - 5 < klen || n - 5 - klen < 4 {
            return None;
        }
        let vlen = read_u32_le(raw, 5 + klen) as usize;
        if n - 9 - klen != vlen {
            return None;
        }
        let key = read_bytes(raw, 5, klen);
        let value = read_bytes(raw, 9 + klen, vlen);
        Some(ExecuteMsg::SetEntry { key, value })
    } else if tag == TAG_EXEC_PLACEHOLDER {
        if n == 1 {
            Some(ExecuteMsg::Placeholder)
        } else {
            None
        }
    } else {
        None
    }
}

/// Encodes a query message into its canonical bytes.
pub fn encode_query(m: &QueryMsg) -> (r: Vec<u8>)
    requires
        query_msg_wf(m@),
    ensures
        r@ == encode_query_spec(m@),
{
    let mut out: Vec<u8> = Vec::new();
    match m {
        QueryMsg::GetEntry { key } => {
            out.push(TAG_QUERY_GET_ENTRY);
            write_u32_le(&mut out, key.len() as u32);
            write_bytes(&mut out, key);
        },
        QueryMsg::Placeholder => {
            out.push(TAG_QUERY_PLACEHOLDER);
        },
    }
    proof {
        assert(out@ =~= encode_query_spec(m@));
    }
    out
}

/// Decodes a query payload; `None` is a decode failure.
pub fn decode_query(raw: &Vec<u8>) -> (r: Option<QueryMsg>)
    ensures
        r is Some <==> decode_query_spec(raw@) is Some,
        r matches Some(m) ==> decode_query_spec(raw@) == Some(m@),
{
    let n = raw.len();
    if n < 1 {
        return None;
    }
    let tag = raw[0];
    if tag == TAG_QUERY_GET_ENTRY {
        if n < 5 {
            return None;
        }
        let klen = read_u32_le(raw, 1) as usize;
        if n - 5 != klen {
            return None;
        }
        let key = read_bytes(raw, 5, klen);
        Some(QueryMsg::GetEntry { key })
    } else if tag == TAG_QUERY_PLACEHOLDER {
        if n == 1 {
            Some(QueryMsg::Placeholder)
        } else {
            None
        }
    } else {
        None
    }
}

/// Round trip through the canonical codec: decoding the encoding of the
/// instantiate message accepts it. Together with the lemmas below, this is
/// the law that every constructible typed message survives
/// encode-then-decode unchanged.
pub proof fn lemma_instantiate_round_trip()
    ensures
        decode_instantiate_spec(encode_instantiate_spec()),
{
}

/// Round trip through the canonical codec: every well-formed execute message
/// decodes from its own encoding, unchanged.
pub proof fn lemma_execute_round_trip(m: ExecuteMsgView)
    requires
        execute_msg_wf(m),
    ensures
        decode_execute_spec(encode_execute_spec(m)) == Some(m),
{
    let raw = encode_execute_spec(m);
    match m {
        ExecuteMsgView::SetEntry { key, value } => {
            let kl = key.len() as u32;
            let vl = value.len() as u32;
            lemma_u32_le_round_trip(kl);
            lemma_u32_le_round_trip(vl);
            assert(raw.len() == 9 + key.len() + value.len());
            assert(raw[0] == TAG_EXEC_SET_ENTRY);
            assert(raw.subrange(1, 5) =~= u32_le(kl));
            let klen = le_u32(raw.subrange(1, 5)) as int;
            assert(klen == key.len());
            assert(raw.subrange(5 + klen, 9 + klen) =~= u32_le(vl));
            let vlen = le_u32(raw.subrange(5 + klen, 9 + klen)) as int;
            assert(vlen == value.len());
            assert(raw.subrange(5, 5 + klen) =~= key);
            assert(raw.subrange(9 + klen, 9 + klen + vlen) =~= value);
        },
        ExecuteMsgView::Placeholder => {
            assert(raw.len() == 1 && raw[0] == TAG_EXEC_PLACEHOLDER);
        },
    }
}

/// Round trip through the canonical codec: every well-formed query message
/// decodes from its own encoding, unchanged.
pub proof fn lemma_query_round_trip(m: QueryMsgView)
    requires
        query_msg_wf(m),
    ensures
        decode_query_spec(encode_query_spec(m)) == Some(m),
{
    let raw = encode_query_spec(m);
    match m {
        QueryMsgView::GetEntry { key } => {
            let kl = key.len() as u32;
            lemma_u32_le_round_trip(kl);
            assert(raw.len() == 5 + key.len());
            assert(raw[0] == TAG_QUERY_GET_ENTRY);
            assert(raw.subrange(1, 5) =~= u32_le(kl));
            let klen = le_u32(raw.subrange(1, 5)) as int;
            assert(klen == key.len());
            assert(raw.subrange(5, 5 + klen) =~= key);
        },
        QueryMsgView::Placeholder => {
            assert(raw.len() == 1 && raw[0] == TAG_QUERY_PLACEHOLDER);
        },
    }
}

} // verus!
