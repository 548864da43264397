//! The error taxonomy of the provider.

use vstd::prelude::*;

verus! {

/// Every failure a dispatch call can produce.
///
/// - `Configuration`: the actor has no registered client, or the
///   configuration payload was malformed.
/// - `Protocol`: the operation code is not in the catalog, or the payload
///   failed to decode into the expected request shape.
/// - `StoreOperation`: the backing store command itself failed.
///
/// Each variant carries a descriptive cause for the host.
#[derive(Debug, Clone, PartialEq, Eq)]
pub enum KvError {
    Configuration(String),
    Protocol(String),
    StoreOperation(String),
}

impl KvError {
    /// A human-readable description of the failure.
    pub fn message(&self) -> (r: &str)
        ensures
            r@ == self.spec_message(),
    {
        match self {
            KvError::Configuration(m) => m.as_str(),
            KvError::Protocol(m) => m.as_str(),
            KvError::StoreOperation(m) => m.as_str(),
        }
    }

    /// The cause carried by the variant.
    pub open spec fn spec_message(&self) -> Seq<char> {
        match self {
            KvError::Configuration(m) => m@,
            KvError::Protocol(m) => m@,
            KvError::StoreOperation(m) => m@,
        }
    }
}

} // verus!
