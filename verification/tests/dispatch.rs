use std::collections::HashMap;

use kvredis::error::KvError;
use kvredis::provider::RedisKVProvider;
use wascc_codec::keyvalue;

fn configure_payload(module: &str, url: &str) -> Vec<u8> {
    let mut values = HashMap::new();
    values.insert("URL".to_string(), url.to_string());
    wascc_codec::serialize(wascc_codec::core::CapabilityConfiguration { module: module.to_string(), values })
        .unwrap()
}

#[test]
fn unknown_operation_is_a_protocol_error() {
    let mut p = RedisKVProvider::new();
    let r = p.handle_call("a1", "Frobnicate", &[]);
    assert!(matches!(r, Err(KvError::Protocol(_))));
}

#[test]
fn configure_is_reserved_to_the_system_identity() {
    let mut p = RedisKVProvider::new();
    let payload = configure_payload("a1", "redis://127.0.0.1:6399/");
    let r = p.handle_call("a1", "Configure", &payload);
    assert!(matches!(r, Err(KvError::Protocol(_))));
}

#[test]
fn configure_with_bad_address_is_a_configuration_error() {
    let mut p = RedisKVProvider::new();
    let payload = configure_payload("a1", "this is not an address");
    let r = p.handle_call("system", "Configure", &payload);
    assert!(matches!(r, Err(KvError::Configuration(_))));
}

#[test]
fn configure_with_valid_address_returns_empty_payload() {
    let mut p = RedisKVProvider::new();
    let payload = configure_payload("a1", "redis://127.0.0.1:6399/");
    let r = p.handle_call("system", "Configure", &payload).unwrap();
    assert_eq!(r, Vec::<u8>::new());
}

#[test]
fn unregistered_actor_is_a_configuration_error() {
    let mut p = RedisKVProvider::new();
    let payload = wascc_codec::serialize(keyvalue::GetRequest { key: "x".to_string() }).unwrap();
    let r = p.handle_call("a1", "Get", &payload);
    assert!(matches!(r, Err(KvError::Configuration(_))));
}

#[test]
fn configured_actor_is_isolated_from_others() {
    let mut p = RedisKVProvider::new();
    let payload = configure_payload("a1", "redis://127.0.0.1:6399/");
    p.handle_call("system", "Configure", &payload).unwrap();

    let add = wascc_codec::serialize(keyvalue::AddRequest { key: "x".to_string(), value: 5 })
        .unwrap();
    // the configured actor reaches its (unreachable) store: a store failure
    let r1 = p.handle_call("a1", "Add", &add);
    assert!(matches!(r1, Err(KvError::StoreOperation(_))));
    // any other actor has no registration: a configuration error
    let r2 = p.handle_call("a2", "Add", &add);
    assert!(matches!(r2, Err(KvError::Configuration(_))));
}

#[test]
fn reconfiguration_replaces_the_handle() {
    let mut p = RedisKVProvider::new();
    p.handle_call("system", "Configure", &configure_payload("a1", "redis://127.0.0.1:6399/"))
        .unwrap();
    p.handle_call("system", "Configure", &configure_payload("a1", "redis://127.0.0.1:6398/"))
        .unwrap();
    let add = wascc_codec::serialize(keyvalue::AddRequest { key: "x".to_string(), value: 1 })
        .unwrap();
    let r = p.handle_call("a1", "Add", &add);
    assert!(matches!(r, Err(KvError::StoreOperation(_))));
}

#[test]
fn malformed_configuration_is_a_configuration_error() {
    let mut p = RedisKVProvider::new();
    let garbage: Vec<u8> = vec![0xc1, 0xff, 0x00];
    let r = p.handle_call("system", "Configure", &garbage);
    assert!(matches!(r, Err(KvError::Configuration(_))));
}

#[test]
fn malformed_payload_is_a_protocol_error() {
    let mut p = RedisKVProvider::new();
    p.handle_call("system", "Configure", &configure_payload("a1", "redis://127.0.0.1:6399/"))
        .unwrap();
    let garbage: Vec<u8> = vec![0xc1, 0xff, 0x00];
    let r = p.handle_call("a1", "Add", &garbage);
    assert!(matches!(r, Err(KvError::Protocol(_))));
}

#[test]
fn every_store_operation_needs_a_registration() {
    let mut p = RedisKVProvider::new();
    let key = "k".to_string();
    let calls: Vec<(&str, Vec<u8>)> = vec![
        ("Del", wascc_codec::serialize(keyvalue::DelRequest { key: key.clone() }).unwrap()),
        ("Clear", wascc_codec::serialize(keyvalue::ListClearRequest { key: key.clone() }).unwrap()),
        (
            "Range",
            wascc_codec::serialize(keyvalue::ListRangeRequest {
                key: key.clone(),
                start: 0,
                stop: -1,
            })
            .unwrap(),
        ),
        (
            "Push",
            wascc_codec::serialize(keyvalue::ListPushRequest {
                key: key.clone(),
                value: "v".to_string(),
            })
            .unwrap(),
        ),
        (
            "Set",
            wascc_codec::serialize(keyvalue::SetRequest {
                key: key.clone(),
                value: "v".to_string(),
                expires_s: 0,
            })
            .unwrap(),
        ),
        (
            "ListItemDelete",
            wascc_codec::serialize(keyvalue::ListDelItemRequest {
                key: key.clone(),
                value: "v".to_string(),
            })
            .unwrap(),
        ),
        (
            "SetAdd",
            wascc_codec::serialize(keyvalue::SetAddRequest {
                key: key.clone(),
                value: "v".to_string(),
            })
            .unwrap(),
        ),
        (
            "SetRemove",
            wascc_codec::serialize(keyvalue::SetRemoveRequest {
                key: key.clone(),
                value: "v".to_string(),
            })
            .unwrap(),
        ),
        (
            "SetUnion",
            wascc_codec::serialize(keyvalue::SetUnionRequest { keys: vec![key.clone()] }).unwrap(),
        ),
        (
            "SetIntersection",
            wascc_codec::serialize(keyvalue::SetIntersectionRequest { keys: vec![key.clone()] })
                .unwrap(),
        ),
        (
            "SetQuery",
            wascc_codec::serialize(keyvalue::SetQueryRequest { key: key.clone() }).unwrap(),
        ),
        (
            "KeyExists",
            wascc_codec::serialize(keyvalue::KeyExistsQuery { key: key.clone() }).unwrap(),
        ),
    ];
    for (op, payload) in calls {
        let r = p.handle_call("nobody", op, &payload);
        assert!(matches!(r, Err(KvError::Configuration(_))), "operation {}", op);
    }
}

#[test]
fn store_calls_dispatch_under_shared_access() {
    let mut p = RedisKVProvider::new();
    p.handle_call("system", "Configure", &configure_payload("a1", "redis://127.0.0.1:6399/"))
        .unwrap();
    let add = wascc_codec::serialize(keyvalue::AddRequest { key: "x".to_string(), value: 1 })
        .unwrap();
    let shared = &p;
    let r = shared.handle_store_call("a1", "Add", &add);
    assert!(matches!(r, Err(KvError::StoreOperation(_))));
    let r = shared.handle_store_call("a2", "Add", &add);
    assert!(matches!(r, Err(KvError::Configuration(_))));
    // the exclusive update is refused on the shared path
    let r = shared.handle_store_call("system", "Configure", &configure_payload("a1", "redis://127.0.0.1:6399/"));
    assert!(matches!(r, Err(KvError::Protocol(_))));
}

#[test]
fn lock_scope_path_resolves_before_connecting() {
    let mut p = RedisKVProvider::new();
    p.handle_call("system", "Configure", &configure_payload("a1", "redis://127.0.0.1:6399/"))
        .unwrap();
    assert!(RedisKVProvider::is_store_op("Add"));
    assert!(!RedisKVProvider::is_store_op("Configure"));
    assert!(!RedisKVProvider::is_store_op("Nope"));
    // the clone carries the registered address: connecting to it fails the
    // same way the dispatch path does, since nothing listens there
    let c = p.client_for("a1").unwrap();
    assert!(kvredis::redisio::client_connection(&c).is_err());
    assert!(matches!(p.client_for("a2"), Err(KvError::Configuration(_))));
}

#[test]
fn provider_identity_strings() {
    let p = RedisKVProvider::new();
    assert_eq!(p.capability_id(), "wascc:keyvalue");
    assert_eq!(p.name(), "waSCC Default Key-Value Provider (Redis)");
}

#[test]
fn error_messages_are_descriptive() {
    let mut p = RedisKVProvider::new();
    let r = p.handle_call("a1", "Frobnicate", &[]);
    match r {
        Err(e) => assert!(!e.message().is_empty()),
        Ok(_) => panic!("an unknown operation must not succeed"),
    }
}
