//! A verified multi-tenant key-value capability provider backed by Redis.
//!
//! Each caller ("actor") is bound to its own Redis client through a
//! connection registry; a single dispatch entry point decodes a binary
//! request, performs exactly one store operation scoped to the calling
//! actor, and encodes a binary response.
//!
//! The modules, leaves first: [`error`] is the failure taxonomy, [`msg`]
//! the request and response types, [`num`] the decimal integer strings the
//! store's add operation reads and writes, [`store`] a verified reference
//! store giving each operation's semantics, [`laws`] the guarantees that
//! relate several operations, [`codec`] the trusted bindings to the wire
//! codec, [`redisio`] the trusted bindings to the Redis client, [`registry`]
//! the actor-to-client map, and [`provider`] the dispatch engine.

pub mod codec;
pub mod error;
pub mod laws;
pub mod msg;
pub mod num;
pub mod provider;
pub mod redisio;
pub mod registry;
pub mod store;

pub use error::KvError;
pub use provider::RedisKVProvider;
