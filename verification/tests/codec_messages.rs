use cw_skeleton::msg::{
    decode_execute, decode_instantiate, decode_query, encode_execute, encode_instantiate,
    encode_query, ExecuteMsg, InstantiateMsg, QueryMsg,
};

#[test]
fn instantiate_round_trips_through_the_codec() {
    let raw = encode_instantiate(&InstantiateMsg {});
    assert_eq!(raw, Vec::<u8>::new());
    assert_eq!(decode_instantiate(&raw), Some(InstantiateMsg {}));
}

#[test]
fn execute_messages_round_trip_through_the_codec() {
    let cases = vec![
        ExecuteMsg::SetEntry { key: b"owner".to_vec(), value: b"alice".to_vec() },
        ExecuteMsg::SetEntry { key: vec![], value: b"x".to_vec() },
        ExecuteMsg::SetEntry { key: b"k".to_vec(), value: vec![] },
        ExecuteMsg::Placeholder,
    ];
    for msg in cases {
        let raw = encode_execute(&msg);
        assert_eq!(decode_execute(&raw), Some(msg));
    }
}

#[test]
fn query_messages_round_trip_through_the_codec() {
    let cases = vec![
        QueryMsg::GetEntry { key: b"owner".to_vec() },
        QueryMsg::GetEntry { key: vec![] },
        QueryMsg::Placeholder,
    ];
    for msg in cases {
        let raw = encode_query(&msg);
        assert_eq!(decode_query(&raw), Some(msg));
    }
}

#[test]
fn encoding_is_the_exact_canonical_byte_sequence() {
    let raw = encode_execute(&ExecuteMsg::SetEntry { key: b"ab".to_vec(), value: b"xyz".to_vec() });
    assert_eq!(raw, vec![1u8, 2, 0, 0, 0, 97, 98, 3, 0, 0, 0, 120, 121, 122]);

    let raw = encode_execute(&ExecuteMsg::Placeholder);
    assert_eq!(raw, vec![2u8]);

    let raw = encode_query(&QueryMsg::GetEntry { key: b"k".to_vec() });
    assert_eq!(raw, vec![1u8, 1, 0, 0, 0, 107]);

    let raw = encode_query(&QueryMsg::Placeholder);
    assert_eq!(raw, vec![2u8]);
}

#[test]
fn decoding_is_strict() {
    // Trailing bytes that do not belong to the declared shape are rejected.
    assert_eq!(decode_instantiate(&vec![0u8]), None);
    assert_eq!(decode_execute(&vec![2u8, 0]), None);
    assert_eq!(decode_query(&vec![2u8, 0]), None);
    let mut raw = encode_execute(&ExecuteMsg::SetEntry { key: b"a".to_vec(), value: b"b".to_vec() });
    raw.push(0);
    assert_eq!(decode_execute(&raw), None);

    // Truncated payloads are rejected.
    let full = encode_execute(&ExecuteMsg::SetEntry { key: b"a".to_vec(), value: b"b".to_vec() });
    for cut in 0..full.len() {
        assert_eq!(decode_execute(&full[..cut].to_vec()), None);
    }

    // Unknown tags are rejected.
    assert_eq!(decode_execute(&vec![9u8]), None);
    assert_eq!(decode_query(&vec![0u8, 1, 2]), None);

    // The empty payload decodes only as the instantiate message.
    assert_eq!(decode_execute(&Vec::new()), None);
    assert_eq!(decode_query(&Vec::new()), None);
    assert_eq!(decode_instantiate(&Vec::new()), Some(InstantiateMsg {}));

    // A declared length that overruns the payload is rejected.
    assert_eq!(decode_query(&vec![1u8, 5, 0, 0, 0, 107]), None);
}
