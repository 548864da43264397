//! The operation request and response types.
//!
//! One pair per operation kind. Each request carries the operation's
//! semantic parameters; each response carries the operation's result plus,
//! where applicable, an existence or count field. These are stateless,
//! created fresh per call, and destroyed after encoding.

use vstd::prelude::*;

verus! {

/// A request to get a single value.
#[derive(Debug, Clone, PartialEq, Eq)]
pub struct GetRequest {
    pub key: String,
}

/// The result of a get request. A missing key is not an error: it is
/// reported as an empty value with `exists` false.
#[derive(Debug, Clone, PartialEq, Eq)]
pub struct GetResponse {
    pub value: String,
    pub exists: bool,
}

/// A request to set a scalar value. The expiry field travels on the wire
/// but the store keeps the key for the process lifetime, as the backing
/// commands issued here carry no expiry.
#[derive(Debug, Clone, PartialEq, Eq)]
pub struct SetRequest {
    pub key: String,
    pub value: String,
    pub expires_s: i32,
}

/// Response to a set request.
#[derive(Debug, Clone, PartialEq, Eq)]
pub struct SetResponse {
    pub value: String,
}

/// A request to delete a key.
#[derive(Debug, Clone, PartialEq, Eq)]
pub struct DelRequest {
    pub key: String,
}

/// Response to a delete request: echoes the deleted key name.
#[derive(Debug, Clone, PartialEq, Eq)]
pub struct DelResponse {
    pub key: String,
}

/// A request to atomically add to a numeric value.
#[derive(Debug, Clone, PartialEq, Eq)]
pub struct AddRequest {
    pub key: String,
    pub value: i32,
}

/// Result of an atomic add: the new value.
#[derive(Debug, Clone, PartialEq, Eq)]
pub struct AddResponse {
    pub value: i32,
}

/// A request to prepend an item to a list.
#[derive(Debug, Clone, PartialEq, Eq)]
pub struct ListPushRequest {
    pub key: String,
    pub value: String,
}

/// A request to delete all occurrences of an item from a list.
#[derive(Debug, Clone, PartialEq, Eq)]
pub struct ListDelItemRequest {
    pub key: String,
    pub value: String,
}

/// A request to clear a list at a given key.
#[derive(Debug, Clone, PartialEq, Eq)]
pub struct ListClearRequest {
    pub key: String,
}

/// A request for an inclusive range of list elements.
#[derive(Debug, Clone, PartialEq, Eq)]
pub struct ListRangeRequest {
    pub key: String,
    pub start: i32,
    pub stop: i32,
}

/// The elements within a requested list range.
#[derive(Debug, Clone, PartialEq, Eq)]
pub struct ListRangeResponse {
    pub values: Vec<String>,
}

/// Response to non-range list requests: push and item deletion.
#[derive(Debug, Clone, PartialEq, Eq)]
pub struct ListResponse {
    pub new_count: i32,
}

/// Request to add an item to a set.
#[derive(Debug, Clone, PartialEq, Eq)]
pub struct SetAddRequest {
    pub key: String,
    pub value: String,
}

/// Request to remove an item from a set.
#[derive(Debug, Clone, PartialEq, Eq)]
pub struct SetRemoveRequest {
    pub key: String,
    pub value: String,
}

/// Request for all members of one set.
#[derive(Debug, Clone, PartialEq, Eq)]
pub struct SetQueryRequest {
    pub key: String,
}

/// Members returned by a set query, union or intersection.
#[derive(Debug, Clone, PartialEq, Eq)]
pub struct SetQueryResponse {
    pub values: Vec<String>,
}

/// Request for the intersection of several sets.
#[derive(Debug, Clone, PartialEq, Eq)]
pub struct SetIntersectionRequest {
    pub keys: Vec<String>,
}

/// Request for the union of several sets.
#[derive(Debug, Clone, PartialEq, Eq)]
pub struct SetUnionRequest {
    pub keys: Vec<String>,
}

/// Response to a set add or remove: the member count after the mutation.
#[derive(Debug, Clone, PartialEq, Eq)]
pub struct SetOperationResponse {
    pub new_count: i32,
}

/// Test for the existence of a key.
#[derive(Debug, Clone, PartialEq, Eq)]
pub struct KeyExistsQuery {
    pub key: String,
}

/// An actor's connection parameters: the actor identity and the address of
/// its backing store.
#[derive(Debug, Clone, PartialEq, Eq)]
pub struct Configuration {
    pub module: String,
    pub url: String,
}

} // verus!
