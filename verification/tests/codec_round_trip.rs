use kvredis::codec;
use kvredis::msg;
use wascc_codec::keyvalue;

#[test]
fn add_request_decodes_from_the_wire() {
    let payload =
        wascc_codec::serialize(keyvalue::AddRequest { key: "k".to_string(), value: -3 }).unwrap();
    let q = codec::decode_add_request(&payload).unwrap();
    assert_eq!(q, msg::AddRequest { key: "k".to_string(), value: -3 });
}

#[test]
fn set_request_decodes_from_the_wire() {
    let payload = wascc_codec::serialize(keyvalue::SetRequest {
        key: "k".to_string(),
        value: "v".to_string(),
        expires_s: 9,
    })
    .unwrap();
    let q = codec::decode_set_request(&payload).unwrap();
    assert_eq!(q, msg::SetRequest { key: "k".to_string(), value: "v".to_string(), expires_s: 9 });
}

#[test]
fn range_request_decodes_from_the_wire() {
    let payload = wascc_codec::serialize(keyvalue::ListRangeRequest {
        key: "L".to_string(),
        start: -2,
        stop: -1,
    })
    .unwrap();
    let q = codec::decode_list_range_request(&payload).unwrap();
    assert_eq!(q, msg::ListRangeRequest { key: "L".to_string(), start: -2, stop: -1 });
}

#[test]
fn union_request_decodes_from_the_wire() {
    let payload = wascc_codec::serialize(keyvalue::SetUnionRequest {
        keys: vec!["a".to_string(), "b".to_string()],
    })
    .unwrap();
    let q = codec::decode_set_union_request(&payload).unwrap();
    assert_eq!(q.keys, vec!["a".to_string(), "b".to_string()]);
}

#[test]
fn garbage_does_not_decode() {
    let garbage: Vec<u8> = vec![0xc1];
    assert!(codec::decode_add_request(&garbage).is_err());
    assert!(codec::decode_get_request(&garbage).is_err());
    assert!(codec::decode_configuration(&garbage).is_err());
}

#[test]
fn get_response_encodes_to_the_wire() {
    let bytes = codec::encode_get_response("v".to_string(), true);
    let back: keyvalue::GetResponse = wascc_codec::deserialize(&bytes).unwrap();
    assert_eq!(back, keyvalue::GetResponse { value: "v".to_string(), exists: true });
}

#[test]
fn add_response_encodes_to_the_wire() {
    let bytes = codec::encode_add_response(41);
    let back: keyvalue::AddResponse = wascc_codec::deserialize(&bytes).unwrap();
    assert_eq!(back, keyvalue::AddResponse { value: 41 });
}

#[test]
fn del_response_encodes_to_the_wire() {
    let bytes = codec::encode_del_response("k".to_string());
    let back: keyvalue::DelResponse = wascc_codec::deserialize(&bytes).unwrap();
    assert_eq!(back, keyvalue::DelResponse { key: "k".to_string() });
}

#[test]
fn set_response_encodes_to_the_wire() {
    let bytes = codec::encode_set_response("v".to_string());
    let back: keyvalue::SetResponse = wascc_codec::deserialize(&bytes).unwrap();
    assert_eq!(back, keyvalue::SetResponse { value: "v".to_string() });
}

#[test]
fn list_responses_encode_to_the_wire() {
    let bytes = codec::encode_list_response(2);
    let back: keyvalue::ListResponse = wascc_codec::deserialize(&bytes).unwrap();
    assert_eq!(back, keyvalue::ListResponse { new_count: 2 });

    let bytes = codec::encode_list_range_response(vec!["b".to_string(), "a".to_string()]);
    let back: keyvalue::ListRangeResponse = wascc_codec::deserialize(&bytes).unwrap();
    assert_eq!(back.values, vec!["b".to_string(), "a".to_string()]);
}

#[test]
fn set_responses_encode_to_the_wire() {
    let bytes = codec::encode_set_operation_response(1);
    let back: keyvalue::SetOperationResponse = wascc_codec::deserialize(&bytes).unwrap();
    assert_eq!(back, keyvalue::SetOperationResponse { new_count: 1 });

    let bytes = codec::encode_set_query_response(vec!["m".to_string()]);
    let back: keyvalue::SetQueryResponse = wascc_codec::deserialize(&bytes).unwrap();
    assert_eq!(back.values, vec!["m".to_string()]);
}

#[test]
fn configuration_decodes_module_and_address() {
    let mut values = std::collections::HashMap::new();
    values.insert("URL".to_string(), "redis://127.0.0.1:6399/".to_string());
    let payload = wascc_codec::serialize(wascc_codec::core::CapabilityConfiguration {
        module: "a1".to_string(),
        values,
    })
    .unwrap();
    let (module, url) = codec::decode_configuration(&payload).unwrap();
    assert_eq!(module, "a1");
    assert_eq!(url, Some("redis://127.0.0.1:6399/".to_string()));

    let payload = wascc_codec::serialize(wascc_codec::core::CapabilityConfiguration {
        module: "a2".to_string(),
        values: std::collections::HashMap::new(),
    })
    .unwrap();
    let (module, url) = codec::decode_configuration(&payload).unwrap();
    assert_eq!(module, "a2");
    assert_eq!(url, None);
}

#[test]
fn reply_builders_encode_the_outcome() {
    let bytes = kvredis::provider::get_reply(Some("v".to_string()));
    let back: keyvalue::GetResponse = wascc_codec::deserialize(&bytes).unwrap();
    assert_eq!(back, keyvalue::GetResponse { value: "v".to_string(), exists: true });

    let bytes = kvredis::provider::get_reply(None);
    let back: keyvalue::GetResponse = wascc_codec::deserialize(&bytes).unwrap();
    assert_eq!(back, keyvalue::GetResponse { value: "".to_string(), exists: false });

    let bytes = kvredis::provider::add_reply(-7).unwrap();
    let back: keyvalue::AddResponse = wascc_codec::deserialize(&bytes).unwrap();
    assert_eq!(back, keyvalue::AddResponse { value: -7 });
    assert!(kvredis::provider::add_reply(i64::MAX).is_err());

    let bytes = kvredis::provider::list_count_reply(3).unwrap();
    let back: keyvalue::ListResponse = wascc_codec::deserialize(&bytes).unwrap();
    assert_eq!(back, keyvalue::ListResponse { new_count: 3 });
    assert!(kvredis::provider::list_count_reply(i64::MIN).is_err());

    let bytes = kvredis::provider::set_count_reply(1).unwrap();
    let back: keyvalue::SetOperationResponse = wascc_codec::deserialize(&bytes).unwrap();
    assert_eq!(back, keyvalue::SetOperationResponse { new_count: 1 });
}
