//! Trusted bindings to the wire codec: one decoder per request kind and one
//! encoder per response kind.
//!
//! The wire encoding is an opaque codec; what each call returns is named,
//! since both directions are functions of their input alone. A payload that
//! fails to decode is a protocol error, never an empty request.

use vstd::prelude::*;
use crate::error::KvError;
use crate::msg::{
    AddRequest, AddResponse, Configuration, DelRequest, GetRequest, KeyExistsQuery,
    ListClearRequest, ListDelItemRequest, ListPushRequest, ListRangeRequest, SetAddRequest,
    SetIntersectionRequest, SetQueryRequest, SetRemoveRequest, SetRequest, SetUnionRequest,
};
use crate::store::views;
use wascc_codec::keyvalue;

verus! {

pub uninterp spec fn decoded_get_request(b: Seq<u8>) -> Option<Seq<char>>;

pub uninterp spec fn decoded_set_request(b: Seq<u8>) -> Option<(Seq<char>, Seq<char>, i32)>;

pub uninterp spec fn decoded_del_request(b: Seq<u8>) -> Option<Seq<char>>;

pub uninterp spec fn decoded_add_request(b: Seq<u8>) -> Option<(Seq<char>, i32)>;

pub uninterp spec fn decoded_list_clear_request(b: Seq<u8>) -> Option<Seq<char>>;

pub uninterp spec fn decoded_list_range_request(b: Seq<u8>) -> Option<(Seq<char>, i32, i32)>;

pub uninterp spec fn decoded_list_push_request(b: Seq<u8>) -> Option<(Seq<char>, Seq<char>)>;

pub uninterp spec fn decoded_list_del_item_request(b: Seq<u8>) -> Option<(Seq<char>, Seq<char>)>;

pub uninterp spec fn decoded_set_add_request(b: Seq<u8>) -> Option<(Seq<char>, Seq<char>)>;

pub uninterp spec fn decoded_set_remove_request(b: Seq<u8>) -> Option<(Seq<char>, Seq<char>)>;

pub uninterp spec fn decoded_set_union_request(b: Seq<u8>) -> Option<Seq<Seq<char>>>;

pub uninterp spec fn decoded_set_intersection_request(b: Seq<u8>) -> Option<Seq<Seq<char>>>;

pub uninterp spec fn decoded_set_query_request(b: Seq<u8>) -> Option<Seq<char>>;

pub uninterp spec fn decoded_key_exists_query(b: Seq<u8>) -> Option<Seq<char>>;

pub uninterp spec fn decoded_configuration(b: Seq<u8>) -> Option<(Seq<char>, Option<Seq<char>>)>;

pub uninterp spec fn encoded_get_response(value: Seq<char>, exists: bool) -> Seq<u8>;

pub uninterp spec fn encoded_set_response(value: Seq<char>) -> Seq<u8>;

pub uninterp spec fn encoded_del_response(key: Seq<char>) -> Seq<u8>;

pub uninterp spec fn encoded_add_response(value: i32) -> Seq<u8>;

pub uninterp spec fn encoded_list_range_response(values: Seq<Seq<char>>) -> Seq<u8>;

pub uninterp spec fn encoded_list_response(new_count: i32) -> Seq<u8>;

pub uninterp spec fn encoded_set_query_response(values: Seq<Seq<char>>) -> Seq<u8>;

pub uninterp spec fn encoded_set_operation_response(new_count: i32) -> Seq<u8>;

/// Relies on wascc_codec::deserialize for keyvalue::GetRequest: the decoded
/// request is a function of the payload bytes alone.
#[verifier::external_body]
pub fn decode_get_request(msg: &[u8]) -> (r: Result<GetRequest, KvError>)
    ensures
        r matches Ok(q) ==> decoded_get_request(msg@) == Some(q.key@),
        r is Err <==> decoded_get_request(msg@) is None,
        r matches Err(e) ==> e is Protocol,
{
    match wascc_codec::deserialize::<keyvalue::GetRequest>(msg) {
        Ok(q) => Ok(GetRequest { key: q.key }),
        Err(e) => Err(KvError::Protocol(format!("{}", e))),
    }
}

/// Relies on wascc_codec::deserialize for keyvalue::SetRequest: the decoded
/// request is a function of the payload bytes alone.
#[verifier::external_body]
pub fn decode_set_request(msg: &[u8]) -> (r: Result<SetRequest, KvError>)
    ensures
        r matches Ok(q) ==> decoded_set_request(msg@) == Some((q.key@, q.value@, q.expires_s)),
        r is Err <==> decoded_set_request(msg@) is None,
        r matches Err(e) ==> e is Protocol,
{
    match wascc_codec::deserialize::<keyvalue::SetRequest>(msg) {
        Ok(q) => Ok(SetRequest { key: q.key, value: q.value, expires_s: q.expires_s }),
        Err(e) => Err(KvError::Protocol(format!("{}", e))),
    }
}

/// Relies on wascc_codec::deserialize for keyvalue::DelRequest: the decoded
/// request is a function of the payload bytes alone.
#[verifier::external_body]
pub fn decode_del_request(msg: &[u8]) -> (r: Result<DelRequest, KvError>)
    ensures
        r matches Ok(q) ==> decoded_del_request(msg@) == Some(q.key@),
        r is Err <==> decoded_del_request(msg@) is None,
        r matches Err(e) ==> e is Protocol,
{
    match wascc_codec::deserialize::<keyvalue::DelRequest>(msg) {
        Ok(q) => Ok(DelRequest { key: q.key }),
        Err(e) => Err(KvError::Protocol(format!("{}", e))),
    }
}

/// Relies on wascc_codec::deserialize for keyvalue::AddRequest: the decoded
/// request is a function of the payload bytes alone.
#[verifier::external_body]
pub fn decode_add_request(msg: &[u8]) -> (r: Result<AddRequest, KvError>)
    ensures
        r matches Ok(q) ==> decoded_add_request(msg@) == Some((q.key@, q.value)),
        r is Err <==> decoded_add_request(msg@) is None,
        r matches Err(e) ==> e is Protocol,
{
    match wascc_codec::deserialize::<keyvalue::AddRequest>(msg) {
        Ok(q) => Ok(AddRequest { key: q.key, value: q.value }),
        Err(e) => Err(KvError::Protocol(format!("{}", e))),
    }
}

/// Relies on wascc_codec::deserialize for keyvalue::ListClearRequest: the
/// decoded request is a function of the payload bytes alone.
#[verifier::external_body]
pub fn decode_list_clear_request(msg: &[u8]) -> (r: Result<ListClearRequest, KvError>)
    ensures
        r matches Ok(q) ==> decoded_list_clear_request(msg@) == Some(q.key@),
        r is Err <==> decoded_list_clear_request(msg@) is None,
        r matches Err(e) ==> e is Protocol,
{
    match wascc_codec::deserialize::<keyvalue::ListClearRequest>(msg) {
        Ok(q) => Ok(ListClearRequest { key: q.key }),
        Err(e) => Err(KvError::Protocol(format!("{}", e))),
    }
}

/// Relies on wascc_codec::deserialize for keyvalue::ListRangeRequest: the
/// decoded request is a function of the payload bytes alone.
#[verifier::external_body]
pub fn decode_list_range_request(msg: &[u8]) -> (r: Result<ListRangeRequest, KvError>)
    ensures
        r matches Ok(q) ==> decoded_list_range_request(msg@) == Some((q.key@, q.start, q.stop)),
        r is Err <==> decoded_list_range_request(msg@) is None,
        r matches Err(e) ==> e is Protocol,
{
    match wascc_codec::deserialize::<keyvalue::ListRangeRequest>(msg) {
        Ok(q) => Ok(ListRangeRequest { key: q.key, start: q.start, stop: q.stop }),
        Err(e) => Err(KvError::Protocol(format!("{}", e))),
    }
}

/// Relies on wascc_codec::deserialize for keyvalue::ListPushRequest: the
/// decoded request is a function of the payload bytes alone.
#[verifier::external_body]
pub fn decode_list_push_request(msg: &[u8]) -> (r: Result<ListPushRequest, KvError>)
    ensures
        r matches Ok(q) ==> decoded_list_push_request(msg@) == Some((q.key@, q.value@)),
        r is Err <==> decoded_list_push_request(msg@) is None,
        r matches Err(e) ==> e is Protocol,
{
    match wascc_codec::deserialize::<keyvalue::ListPushRequest>(msg) {
        Ok(q) => Ok(ListPushRequest { key: q.key, value: q.value }),
        Err(e) => Err(KvError::Protocol(format!("{}", e))),
    }
}

/// Relies on wascc_codec::deserialize for keyvalue::ListDelItemRequest: the
/// decoded request is a function of the payload bytes alone.
#[verifier::external_body]
pub fn decode_list_del_item_request(msg: &[u8]) -> (r: Result<ListDelItemRequest, KvError>)
    ensures
        r matches Ok(q) ==> decoded_list_del_item_request(msg@) == Some((q.key@, q.value@)),
        r is Err <==> decoded_list_del_item_request(msg@) is None,
        r matches Err(e) ==> e is Protocol,
{
    match wascc_codec::deserialize::<keyvalue::ListDelItemRequest>(msg) {
        Ok(q) => Ok(ListDelItemRequest { key: q.key, value: q.value }),
        Err(e) => Err(KvError::Protocol(format!("{}", e))),
    }
}

/// Relies on wascc_codec::deserialize for keyvalue::SetAddRequest: the
/// decoded request is a function of the payload bytes alone.
#[verifier::external_body]
pub fn decode_set_add_request(msg: &[u8]) -> (r: Result<SetAddRequest, KvError>)
    ensures
        r matches Ok(q) ==> decoded_set_add_request(msg@) == Some((q.key@, q.value@)),
        r is Err <==> decoded_set_add_request(msg@) is None,
        r matches Err(e) ==> e is Protocol,
{
    match wascc_codec::deserialize::<keyvalue::SetAddRequest>(msg) {
        Ok(q) => Ok(SetAddRequest { key: q.key, value: q.value }),
        Err(e) => Err(KvError::Protocol(format!("{}", e))),
    }
}

/// Relies on wascc_codec::deserialize for keyvalue::SetRemoveRequest: the
/// decoded request is a function of the payload bytes alone.
#[verifier::external_body]
pub fn decode_set_remove_request(msg: &[u8]) -> (r: Result<SetRemoveRequest, KvError>)
    ensures
        r matches Ok(q) ==> decoded_set_remove_request(msg@) == Some((q.key@, q.value@)),
        r is Err <==> decoded_set_remove_request(msg@) is None,
        r matches Err(e) ==> e is Protocol,
{
    match wascc_codec::deserialize::<keyvalue::SetRemoveRequest>(msg) {
        Ok(q) => Ok(SetRemoveRequest { key: q.key, value: q.value }),
        Err(e) => Err(KvError::Protocol(format!("{}", e))),
    }
}

/// Relies on wascc_codec::deserialize for keyvalue::SetUnionRequest: the
/// decoded request is a function of the payload bytes alone.
#[verifier::external_body]
pub fn decode_set_union_request(msg: &[u8]) -> (r: Result<SetUnionRequest, KvError>)
    ensures
        r matches Ok(q) ==> decoded_set_union_request(msg@) == Some(views(q.keys@)),
        r is Err <==> decoded_set_union_request(msg@) is None,
        r matches Err(e) ==> e is Protocol,
{
    match wascc_codec::deserialize::<keyvalue::SetUnionRequest>(msg) {
        Ok(q) => Ok(SetUnionRequest { keys: q.keys }),
        Err(e) => Err(KvError::Protocol(format!("{}", e))),
    }
}

/// Relies on wascc_codec::deserialize for keyvalue::SetIntersectionRequest:
/// the decoded request is a function of the payload bytes alone.
#[verifier::external_body]
pub fn decode_set_intersection_request(msg: &[u8]) -> (r: Result<SetIntersectionRequest, KvError>)
    ensures
        r matches Ok(q) ==> decoded_set_intersection_request(msg@) == Some(views(q.keys@)),
        r is Err <==> decoded_set_intersection_request(msg@) is None,
        r matches Err(e) ==> e is Protocol,
{
    match wascc_codec::deserialize::<keyvalue::SetIntersectionRequest>(msg) {
        Ok(q) => Ok(SetIntersectionRequest { keys: q.keys }),
        Err(e) => Err(KvError::Protocol(format!("{}", e))),
    }
}

/// Relies on wascc_codec::deserialize for keyvalue::SetQueryRequest: the
/// decoded request is a function of the payload bytes alone.
#[verifier::external_body]
pub fn decode_set_query_request(msg: &[u8]) -> (r: Result<SetQueryRequest, KvError>)
    ensures
        r matches Ok(q) ==> decoded_set_query_request(msg@) == Some(q.key@),
        r is Err <==> decoded_set_query_request(msg@) is None,
        r matches Err(e) ==> e is Protocol,
{
    match wascc_codec::deserialize::<keyvalue::SetQueryRequest>(msg) {
        Ok(q) => Ok(SetQueryRequest { key: q.key }),
        Err(e) => Err(KvError::Protocol(format!("{}", e))),
    }
}

/// Relies on wascc_codec::deserialize for keyvalue::KeyExistsQuery: the
/// decoded request is a function of the payload bytes alone.
#[verifier::external_body]
pub fn decode_key_exists_query(msg: &[u8]) -> (r: Result<KeyExistsQuery, KvError>)
    ensures
        r matches Ok(q) ==> decoded_key_exists_query(msg@) == Some(q.key@),
        r is Err <==> decoded_key_exists_query(msg@) is None,
        r matches Err(e) ==> e is Protocol,
{
    match wascc_codec::deserialize::<keyvalue::KeyExistsQuery>(msg) {
        Ok(q) => Ok(KeyExistsQuery { key: q.key }),
        Err(e) => Err(KvError::Protocol(format!("{}", e))),
    }
}

/// Relies on wascc_codec::deserialize for core::CapabilityConfiguration:
/// the decoded record is a function of the payload bytes alone. The store
/// address is the configuration value named URL, where one is given.
#[verifier::external_body]
pub fn decode_configuration(msg: &[u8]) -> (r: Result<(String, Option<String>), KvError>)
    ensures
        r matches Ok(c) ==> decoded_configuration(msg@) == Some(
            (
                c.0@,
                match c.1 {
                    Some(u) => Some(u@),
                    None => None,
                },
            ),
        ),
        r is Err <==> decoded_configuration(msg@) is None,
        r matches Err(e) ==> e is Protocol,
{
    match wascc_codec::deserialize::<wascc_codec::core::CapabilityConfiguration>(msg) {
        Ok(c) => {
            let url = c.values.get("URL").cloned();
            Ok((c.module, url))
        },
        Err(e) => Err(KvError::Protocol(format!("{}", e))),
    }
}

/// Relies on wascc_codec::serialize for keyvalue::GetResponse: the encoding
/// is a function of the fields alone.
#[verifier::external_body]
pub fn encode_get_response(value: String, key_exists: bool) -> (r: Vec<u8>)
    ensures
        r@ == encoded_get_response(value@, key_exists),
{
    wascc_codec::serialize(keyvalue::GetResponse { value, exists: key_exists }).unwrap()
}

/// Relies on wascc_codec::serialize for keyvalue::SetResponse: the encoding
/// is a function of the fields alone.
#[verifier::external_body]
pub fn encode_set_response(value: String) -> (r: Vec<u8>)
    ensures
        r@ == encoded_set_response(value@),
{
    wascc_codec::serialize(keyvalue::SetResponse { value }).unwrap()
}

/// Relies on wascc_codec::serialize for keyvalue::DelResponse: the encoding
/// is a function of the fields alone.
#[verifier::external_body]
pub fn encode_del_response(key: String) -> (r: Vec<u8>)
    ensures
        r@ == encoded_del_response(key@),
{
    wascc_codec::serialize(keyvalue::DelResponse { key }).unwrap()
}

/// Relies on wascc_codec::serialize for keyvalue::AddResponse: the encoding
/// is a function of the fields alone.
#[verifier::external_body]
pub fn encode_add_response(value: i32) -> (r: Vec<u8>)
    ensures
        r@ == encoded_add_response(value),
{
    wascc_codec::serialize(keyvalue::AddResponse { value }).unwrap()
}

/// Relies on wascc_codec::serialize for keyvalue::ListRangeResponse: the
/// encoding is a function of the fields alone.
#[verifier::external_body]
pub fn encode_list_range_response(values: Vec<String>) -> (r: Vec<u8>)
    ensures
        r@ == encoded_list_range_response(views(values@)),
{
    wascc_codec::serialize(keyvalue::ListRangeResponse { values }).unwrap()
}

/// Relies on wascc_codec::serialize for keyvalue::ListResponse: the
/// encoding is a function of the fields alone.
#[verifier::external_body]
pub fn encode_list_response(new_count: i32) -> (r: Vec<u8>)
    ensures
        r@ == encoded_list_response(new_count),
{
    wascc_codec::serialize(keyvalue::ListResponse { new_count }).unwrap()
}

/// Relies on wascc_codec::serialize for keyvalue::SetQueryResponse: the
/// encoding is a function of the fields alone.
#[verifier::external_body]
pub fn encode_set_query_response(values: Vec<String>) -> (r: Vec<u8>)
    ensures
        r@ == encoded_set_query_response(views(values@)),
{
    wascc_codec::serialize(keyvalue::SetQueryResponse { values }).unwrap()
}

/// Relies on wascc_codec::serialize for keyvalue::SetOperationResponse: the
/// encoding is a function of the fields alone.
#[verifier::external_body]
pub fn encode_set_operation_response(new_count: i32) -> (r: Vec<u8>)
    ensures
        r@ == encoded_set_operation_response(new_count),
{
    wascc_codec::serialize(keyvalue::SetOperationResponse { new_count }).unwrap()
}

} // verus!
