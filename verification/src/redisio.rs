//! Trusted bindings to the Redis client crate: the store client factory and
//! one binding per store command the handlers issue.
//!
//! A command's outcome depends on the backing store, so no binding promises
//! a result; each failure is converted to a `StoreOperation` error carrying
//! the underlying cause.

use vstd::prelude::*;
use redis::Commands;
use crate::error::KvError;
use crate::store::views;

verus! {

#[verifier::external_type_specification]
#[verifier::external_body]
pub struct ExClient(redis::Client);

#[verifier::external_type_specification]
#[verifier::external_body]
pub struct ExConnection(redis::Connection);

/// Whether the address parses as a Redis connection URL.
pub uninterp spec fn valid_redis_url(s: Seq<char>) -> bool;

/// Relies on redis::Client::open: it parses the URL and builds a client
/// without connecting, so success is a function of the URL alone.
#[verifier::external_body]
pub fn open_client(url: &str) -> (r: Result<redis::Client, KvError>)
    ensures
        r is Ok <==> valid_redis_url(url@),
        r matches Err(e) ==> e is Configuration,
{
    redis::Client::open(url).map_err(|e| KvError::Configuration(format!("{}", e)))
}

/// Relies on redis::Client::clone: a client is connection parameters, and
/// its clone yields connections to the same address; no network is touched.
#[verifier::external_body]
pub fn clone_client(c: &redis::Client) -> (r: redis::Client)
{
    c.clone()
}

/// Relies on redis::Client::get_connection: it opens one fresh connection
/// to the client's address; success depends on the network.
#[verifier::external_body]
pub fn client_connection(c: &redis::Client) -> (r: Result<redis::Connection, KvError>)
    ensures
        r matches Err(e) ==> e is StoreOperation,
{
    c.get_connection().map_err(|e| KvError::StoreOperation(format!("{}", e)))
}

/// Relies on redis::Commands::incr: one INCRBY command.
#[verifier::external_body]
pub fn redis_incr(con: &mut redis::Connection, key: &str, delta: i32) -> (r: Result<i64, KvError>)
    ensures
        r matches Err(e) ==> e is StoreOperation,
{
    con.incr(key, delta).map(|n: isize| n as i64).map_err(|e| KvError::StoreOperation(
        format!("{}", e),
    ))
}

/// Relies on redis::Commands::del: one DEL command.
#[verifier::external_body]
pub fn redis_del(con: &mut redis::Connection, key: &str) -> (r: Result<(), KvError>)
    ensures
        r matches Err(e) ==> e is StoreOperation,
{
    con.del(key).map(|_: usize| ()).map_err(|e| KvError::StoreOperation(format!("{}", e)))
}

/// Relies on redis::Commands::get: one GET command; an absent key is `None`.
#[verifier::external_body]
pub fn redis_get(con: &mut redis::Connection, key: &str) -> (r: Result<Option<String>, KvError>)
    ensures
        r matches Err(e) ==> e is StoreOperation,
{
    con.get(key).map_err(|e| KvError::StoreOperation(format!("{}", e)))
}

/// Relies on redis::Commands::exists: one EXISTS command.
#[verifier::external_body]
pub fn redis_exists(con: &mut redis::Connection, key: &str) -> (r: Result<bool, KvError>)
    ensures
        r matches Err(e) ==> e is StoreOperation,
{
    con.exists(key).map_err(|e| KvError::StoreOperation(format!("{}", e)))
}

/// Relies on redis::Commands::set: one SET command.
#[verifier::external_body]
pub fn redis_set(con: &mut redis::Connection, key: &str, value: &str) -> (r: Result<(), KvError>)
    ensures
        r matches Err(e) ==> e is StoreOperation,
{
    con.set(key, value).map_err(|e| KvError::StoreOperation(format!("{}", e)))
}

/// Relies on redis::Commands::lrange: one LRANGE command over an inclusive
/// index range.
#[verifier::external_body]
pub fn redis_lrange(con: &mut redis::Connection, key: &str, start: i32, stop: i32) -> (r: Result<
    Vec<String>,
    KvError,
>)
    ensures
        r matches Err(e) ==> e is StoreOperation,
{
    con.lrange(key, start as isize, stop as isize).map_err(|e| KvError::StoreOperation(
        format!("{}", e),
    ))
}

/// Relies on redis::Commands::lpush: one LPUSH command; the reply is the
/// list's element count after the push.
#[verifier::external_body]
pub fn redis_lpush(con: &mut redis::Connection, key: &str, value: &str) -> (r: Result<i64, KvError>)
    ensures
        r matches Err(e) ==> e is StoreOperation,
{
    con.lpush(key, value).map(|n: usize| n as i64).map_err(|e| KvError::StoreOperation(
        format!("{}", e),
    ))
}

/// Relies on redis::Commands::lrem: one LREM command; a zero count asks for
/// every occurrence, and the reply is the number removed.
#[verifier::external_body]
pub fn redis_lrem(con: &mut redis::Connection, key: &str, count: i32, value: &str) -> (r: Result<
    i64,
    KvError,
>)
    ensures
        r matches Err(e) ==> e is StoreOperation,
{
    con.lrem(key, count as isize, value).map(|n: usize| n as i64).map_err(
        |e| KvError::StoreOperation(format!("{}", e)),
    )
}

/// Relies on redis::Commands::sadd: one SADD command. The reply counts the
/// members the command added; with a single member that is zero or one.
#[verifier::external_body]
pub fn redis_sadd(con: &mut redis::Connection, key: &str, value: &str) -> (r: Result<i64, KvError>)
    ensures
        r matches Ok(n) ==> 0 <= n <= 1,
        r matches Err(e) ==> e is StoreOperation,
{
    con.sadd(key, value).map(|n: usize| n as i64).map_err(|e| KvError::StoreOperation(
        format!("{}", e),
    ))
}

/// Relies on redis::Commands::srem: one SREM command. The reply counts the
/// members the command removed; with a single member that is zero or one.
#[verifier::external_body]
pub fn redis_srem(con: &mut redis::Connection, key: &str, value: &str) -> (r: Result<i64, KvError>)
    ensures
        r matches Ok(n) ==> 0 <= n <= 1,
        r matches Err(e) ==> e is StoreOperation,
{
    con.srem(key, value).map(|n: usize| n as i64).map_err(|e| KvError::StoreOperation(
        format!("{}", e),
    ))
}

/// Relies on redis::Commands::smembers: one SMEMBERS command; the reply is
/// a set, so it holds each member once.
#[verifier::external_body]
pub fn redis_smembers(con: &mut redis::Connection, key: &str) -> (r: Result<Vec<String>, KvError>)
    ensures
        r matches Ok(v) ==> views(v@).no_duplicates(),
        r matches Err(e) ==> e is StoreOperation,
{
    con.smembers(key).map(|s: std::collections::HashSet<String>| s.into_iter().collect::<Vec<String>>()).map_err(|e| KvError::StoreOperation(
        format!("{}", e),
    ))
}

/// Relies on redis::Commands::sunion: one SUNION command; the reply is a
/// set, so it holds each member once.
#[verifier::external_body]
pub fn redis_sunion(con: &mut redis::Connection, keys: &Vec<String>) -> (r: Result<
    Vec<String>,
    KvError,
>)
    ensures
        r matches Ok(v) ==> views(v@).no_duplicates(),
        r matches Err(e) ==> e is StoreOperation,
{
    con.sunion(keys).map(|s: std::collections::HashSet<String>| s.into_iter().collect::<Vec<String>>()).map_err(|e| KvError::StoreOperation(
        format!("{}", e),
    ))
}

/// Relies on redis::Commands::sinter: one SINTER command; the reply is a
/// set, so it holds each member once.
#[verifier::external_body]
pub fn redis_sinter(con: &mut redis::Connection, keys: &Vec<String>) -> (r: Result<
    Vec<String>,
    KvError,
>)
    ensures
        r matches Ok(v) ==> views(v@).no_duplicates(),
        r matches Err(e) ==> e is StoreOperation,
{
    con.sinter(keys).map(|s: std::collections::HashSet<String>| s.into_iter().collect::<Vec<String>>()).map_err(|e| KvError::StoreOperation(
        format!("{}", e),
    ))
}

} // verus!
