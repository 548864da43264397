//! The capability provider: the operation catalog, one handler per
//! operation, and the dispatch entry point that decodes a request, performs
//! exactly one store operation scoped to the calling actor, and encodes a
//! response.

use vstd::prelude::*;
use crate::codec::{
    decode_add_request, decode_configuration, decode_del_request, decode_get_request,
    decode_key_exists_query, decode_list_clear_request, decode_list_del_item_request,
    decode_list_push_request, decode_list_range_request, decode_set_add_request,
    decode_set_intersection_request, decode_set_query_request, decode_set_remove_request,
    decode_set_request, decode_set_union_request, decoded_add_request, decoded_configuration,
    decoded_del_request, decoded_get_request, decoded_key_exists_query,
    decoded_list_clear_request, decoded_list_del_item_request, decoded_list_push_request,
    decoded_list_range_request, decoded_set_add_request, decoded_set_intersection_request,
    decoded_set_query_request, decoded_set_remove_request, decoded_set_request,
    decoded_set_union_request, encode_add_response, encode_del_response, encode_get_response,
    encode_list_range_response, encode_list_response, encode_set_operation_response,
    encode_set_query_response, encode_set_response, encoded_add_response, encoded_del_response,
    encoded_get_response, encoded_list_range_response, encoded_list_response,
    encoded_set_operation_response, encoded_set_query_response, encoded_set_response,
};
use crate::error::KvError;
use crate::msg::{
    AddRequest, Configuration, DelRequest, GetRequest, KeyExistsQuery, ListClearRequest,
    ListDelItemRequest, ListPushRequest, ListRangeRequest, SetAddRequest, SetIntersectionRequest,
    SetQueryRequest, SetRemoveRequest, SetRequest, SetUnionRequest,
};
use crate::redisio::{
    clone_client, open_client, redis_del, redis_exists, redis_get, redis_incr, redis_lpush, redis_lrange,
    redis_lrem, redis_sadd, redis_set, redis_sinter, redis_smembers, redis_srem, redis_sunion,
    valid_redis_url,
};
use crate::registry::Registry;

verus! {

/// The fixed operation catalog.
#[derive(Debug, Clone, Copy, PartialEq, Eq, Structural)]
pub enum Op {
    Configure,
    Add,
    Del,
    Get,
    ListClear,
    ListRange,
    ListPush,
    SetValue,
    ListDelItem,
    SetAdd,
    SetRemove,
    SetUnion,
    SetIntersect,
    SetQuery,
    KeyExists,
}

fn owned(s: &str) -> (r: String)
    ensures
        r@ == s@,
{
    s.to_owned()
}

fn str_eq(a: &str, b: &str) -> (r: bool)
    ensures
        r == (a@ == b@),
{
    let ao = a.to_owned();
    let bo = b.to_owned();
    ao == bo
}

/// The store address of a configuration record: the URL value, or the local
/// default where none is given.
pub open spec fn config_url(u: Option<Seq<char>>) -> Seq<char> {
    match u {
        Some(s) => s,
        None => "redis://0.0.0.0:6379/"@,
    }
}

/// The reply for a read that follows a successful existence check: a read
/// that found a value answers it with the existence flag up; a key that
/// vanished between the two commands answers absent, exactly as an unset
/// key does.
pub fn get_reply(read: Option<String>) -> (b: Vec<u8>)
    ensures
        b@ == match read {
            Some(s) => encoded_get_response(s@, true),
            None => encoded_get_response(Seq::<char>::empty(), false),
        },
{
    match read {
        Some(s) => encode_get_response(s, true),
        None => encode_get_response(String::new(), false),
    }
}

/// The reply for an atomic add: the store's sum when it fits the reply
/// range, and a store failure otherwise, never a silent default.
pub fn add_reply(n: i64) -> (r: Result<Vec<u8>, KvError>)
    ensures
        i32::MIN <= n <= i32::MAX ==> (r matches Ok(b) && b@ == encoded_add_response(n as i32)),
        !(i32::MIN <= n <= i32::MAX) ==> (r matches Err(e) && e is StoreOperation),
{
    if n >= i32::MIN as i64 && n <= i32::MAX as i64 {
        Ok(encode_add_response(n as i32))
    } else {
        Err(KvError::StoreOperation(owned("sum does not fit the reply range")))
    }
}

/// The reply for a list mutation: the store's count when it fits the reply
/// range, and a store failure otherwise.
pub fn list_count_reply(n: i64) -> (r: Result<Vec<u8>, KvError>)
    ensures
        i32::MIN <= n <= i32::MAX ==> (r matches Ok(b) && b@ == encoded_list_response(n as i32)),
        !(i32::MIN <= n <= i32::MAX) ==> (r matches Err(e) && e is StoreOperation),
{
    if n >= i32::MIN as i64 && n <= i32::MAX as i64 {
        Ok(encode_list_response(n as i32))
    } else {
        Err(KvError::StoreOperation(owned("count does not fit the reply range")))
    }
}

/// The reply for a set mutation: the store's count when it fits the reply
/// range, and a store failure otherwise.
pub fn set_count_reply(n: i64) -> (r: Result<Vec<u8>, KvError>)
    ensures
        i32::MIN <= n <= i32::MAX ==> (r matches Ok(b) && b@ == encoded_set_operation_response(
            n as i32,
        )),
        !(i32::MIN <= n <= i32::MAX) ==> (r matches Err(e) && e is StoreOperation),
{
    if n >= i32::MIN as i64 && n <= i32::MAX as i64 {
        Ok(encode_set_operation_response(n as i32))
    } else {
        Err(KvError::StoreOperation(owned("count does not fit the reply range")))
    }
}

/// The provider: the connection registry behind the dispatch entry point.
pub struct RedisKVProvider {
    registry: Registry,
}

impl Default for RedisKVProvider {
    /// A provider with no actor configured.
    fn default() -> (r: Self)
        ensures
            r.wf(),
            r.actors() == Map::<Seq<char>, redis::Client>::empty(),
    {
        RedisKVProvider { registry: Registry::new() }
    }
}

impl RedisKVProvider {
    /// Well-formed: the registry maps each actor at most once.
    pub closed spec fn wf(&self) -> bool {
        self.registry.wf()
    }

    /// The registered actors and their client handles.
    pub closed spec fn actors(&self) -> Map<Seq<char>, redis::Client> {
        self.registry@
    }

    /// A provider with no actor configured.
    pub fn new() -> (r: Self)
        ensures
            r.wf(),
            r.actors() == Map::<Seq<char>, redis::Client>::empty(),
    {
        RedisKVProvider { registry: Registry::new() }
    }

    /// The operation a code selects, if any.
    pub open spec fn op_of(s: Seq<char>) -> Option<Op> {
        if s == "Configure"@ {
            Some(Op::Configure)
        } else if s == "Add"@ {
            Some(Op::Add)
        } else if s == "Del"@ {
            Some(Op::Del)
        } else if s == "Get"@ {
            Some(Op::Get)
        } else if s == "Clear"@ {
            Some(Op::ListClear)
        } else if s == "Range"@ {
            Some(Op::ListRange)
        } else if s == "Push"@ {
            Some(Op::ListPush)
        } else if s == "Set"@ {
            Some(Op::SetValue)
        } else if s == "ListItemDelete"@ {
            Some(Op::ListDelItem)
        } else if s == "SetAdd"@ {
            Some(Op::SetAdd)
        } else if s == "SetRemove"@ {
            Some(Op::SetRemove)
        } else if s == "SetUnion"@ {
            Some(Op::SetUnion)
        } else if s == "SetIntersection"@ {
            Some(Op::SetIntersect)
        } else if s == "SetQuery"@ {
            Some(Op::SetQuery)
        } else if s == "KeyExists"@ {
            Some(Op::KeyExists)
        } else {
            None
        }
    }

    fn parse_op(op: &str) -> (r: Option<Op>)
        ensures
            r == Self::op_of(op@),
    {
        if str_eq(op, "Configure") {
            Some(Op::Configure)
        } else if str_eq(op, "Add") {
            Some(Op::Add)
        } else if str_eq(op, "Del") {
            Some(Op::Del)
        } else if str_eq(op, "Get") {
            Some(Op::Get)
        } else if str_eq(op, "Clear") {
            Some(Op::ListClear)
        } else if str_eq(op, "Range") {
            Some(Op::ListRange)
        } else if str_eq(op, "Push") {
            Some(Op::ListPush)
        } else if str_eq(op, "Set") {
            Some(Op::SetValue)
        } else if str_eq(op, "ListItemDelete") {
            Some(Op::ListDelItem)
        } else if str_eq(op, "SetAdd") {
            Some(Op::SetAdd)
        } else if str_eq(op, "SetRemove") {
            Some(Op::SetRemove)
        } else if str_eq(op, "SetUnion") {
            Some(Op::SetUnion)
        } else if str_eq(op, "SetIntersection") {
            Some(Op::SetIntersect)
        } else if str_eq(op, "SetQuery") {
            Some(Op::SetQuery)
        } else if str_eq(op, "KeyExists") {
            Some(Op::KeyExists)
        } else {
            None
        }
    }

    /// Whether the code selects a store operation of the catalog; the
    /// configuration code is not one.
    pub fn is_store_op(op: &str) -> (r: bool)
        ensures
            r == (match Self::op_of(op@) {
                Some(o) => !(o is Configure),
                None => false,
            }),
    {
        match Self::parse_op(op) {
            Some(Op::Configure) => false,
            Some(_) => true,
            None => false,
        }
    }

    /// Whether the payload decodes as the operation's request type.
    pub open spec fn request_decodes(o: Op, b: Seq<u8>) -> bool {
        match o {
            Op::Configure => decoded_configuration(b) is Some,
            Op::Add => decoded_add_request(b) is Some,
            Op::Del => decoded_del_request(b) is Some,
            Op::Get => decoded_get_request(b) is Some,
            Op::ListClear => decoded_list_clear_request(b) is Some,
            Op::ListRange => decoded_list_range_request(b) is Some,
            Op::ListPush => decoded_list_push_request(b) is Some,
            Op::SetValue => decoded_set_request(b) is Some,
            Op::ListDelItem => decoded_list_del_item_request(b) is Some,
            Op::SetAdd => decoded_set_add_request(b) is Some,
            Op::SetRemove => decoded_set_remove_request(b) is Some,
            Op::SetUnion => decoded_set_union_request(b) is Some,
            Op::SetIntersect => decoded_set_intersection_request(b) is Some,
            Op::SetQuery => decoded_set_query_request(b) is Some,
            Op::KeyExists => decoded_key_exists_query(b) is Some,
        }
    }

    /// The shape a successful dispatch reply takes for each operation.
    pub open spec fn dispatch_ok(o: Op, msg: Seq<u8>, b: Seq<u8>) -> bool {
        match o {
            Op::Configure => b == Seq::<u8>::empty(),
            Op::Add => exists|n: i32| b == encoded_add_response(n),
            Op::Del => decoded_del_request(msg) matches Some(k) && b == encoded_del_response(k),
            Op::Get => exists|v: Seq<char>, ex: bool|
                b == encoded_get_response(v, ex) && (!ex ==> v == Seq::<char>::empty()),
            Op::ListClear => decoded_list_clear_request(msg) matches Some(k) && b
                == encoded_del_response(k),
            Op::ListRange => exists|vs: Seq<Seq<char>>| b == encoded_list_range_response(vs),
            Op::ListPush => exists|n: i32| b == encoded_list_response(n),
            Op::SetValue => decoded_set_request(msg) matches Some(q) && b == encoded_set_response(q.1),
            Op::ListDelItem => exists|n: i32| b == encoded_list_response(n),
            Op::SetAdd => exists|n: i32| 0 <= n <= 1 && b == encoded_set_operation_response(n),
            Op::SetRemove => exists|n: i32| 0 <= n <= 1 && b == encoded_set_operation_response(n),
            Op::SetUnion => exists|vs: Seq<Seq<char>>|
                vs.no_duplicates() && b == encoded_set_query_response(vs),
            Op::SetIntersect => exists|vs: Seq<Seq<char>>|
                vs.no_duplicates() && b == encoded_set_query_response(vs),
            Op::SetQuery => exists|vs: Seq<Seq<char>>|
                vs.no_duplicates() && b == encoded_set_query_response(vs),
            Op::KeyExists => exists|ex: bool| b == encoded_get_response(Seq::<char>::empty(), ex),
        }
    }

    /// Registers the actor named by the record with a client for the given
    /// address, replacing any earlier registration wholesale.
    pub fn configure(&mut self, config: Configuration) -> (r: Result<Vec<u8>, KvError>)
        requires
            old(self).wf(),
        ensures
            final(self).wf(),
            r is Ok <==> valid_redis_url(config.url@),
            r matches Ok(b) ==> b@ == Seq::<u8>::empty() && exists|c: redis::Client|
                final(self).actors() == old(self).actors().insert(config.module@, c),
            r matches Err(e) ==> e is Configuration && final(self).actors() == old(self).actors(),
    {
        match open_client(config.url.as_str()) {
            Ok(c) => {
                let ghost gc = c;
                self.registry.register(config.module.as_str(), c);
                proof {
                    assert(final(self).actors() == old(self).actors().insert(config.module@, gc));
                }
                Ok(Vec::new())
            },
            Err(e) => Err(e),
        }
    }

    fn resolve(&self, actor: &str) -> (r: Result<redis::Connection, KvError>)
        requires
            self.wf(),
        ensures
            !self.actors().contains_key(actor@) <==> (r matches Err(e) && e is Configuration),
            r matches Err(e) ==> e is Configuration || e is StoreOperation,
    {
        self.registry.resolve(actor)
    }

    /// Atomically adds to the numeric value at the key and replies with the
    /// new value.
    pub fn add(&self, actor: &str, req: AddRequest) -> (r: Result<Vec<u8>, KvError>)
        requires
            self.wf(),
        ensures
            !self.actors().contains_key(actor@) <==> (r matches Err(e) && e is Configuration),
            r matches Err(e) ==> e is Configuration || e is StoreOperation,
            r matches Ok(b) ==> exists|n: i32| b@ == encoded_add_response(n),
    {
        let mut con = match self.resolve(actor) {
            Ok(c) => c,
            Err(e) => {
                return Err(e);
            },
        };
        Self::add_on(&mut con, req)
    }

    /// Removes the key and replies with the deleted key name; removing an
    /// absent key is not an error.
    pub fn del(&self, actor: &str, req: DelRequest) -> (r: Result<Vec<u8>, KvError>)
        requires
            self.wf(),
        ensures
            !self.actors().contains_key(actor@) <==> (r matches Err(e) && e is Configuration),
            r matches Err(e) ==> e is Configuration || e is StoreOperation,
            r matches Ok(b) ==> b@ == encoded_del_response(req.key@),
    {
        let mut con = match self.resolve(actor) {
            Ok(c) => c,
            Err(e) => {
                return Err(e);
            },
        };
        Self::del_on(&mut con, req)
    }

    /// Reads the scalar at the key. An absent key is an empty value with
    /// the existence flag down, never an error; a read that fails after the
    /// existence check is reported as a store failure rather than folded
    /// into absence, and a key that vanishes between the two commands is
    /// reported as absent.
    pub fn get(&self, actor: &str, req: GetRequest) -> (r: Result<Vec<u8>, KvError>)
        requires
            self.wf(),
        ensures
            !self.actors().contains_key(actor@) <==> (r matches Err(e) && e is Configuration),
            r matches Err(e) ==> e is Configuration || e is StoreOperation,
            r matches Ok(b) ==> exists|v: Seq<char>, ex: bool|
                b@ == encoded_get_response(v, ex) && (!ex ==> v == Seq::<char>::empty()),
    {
        let mut con = match self.resolve(actor) {
            Ok(c) => c,
            Err(e) => {
                return Err(e);
            },
        };
        Self::get_on(&mut con, req)
    }

    /// Clears a list by deleting its key, with the same idempotence as a
    /// plain delete.
    pub fn list_clear(&self, actor: &str, req: ListClearRequest) -> (r: Result<Vec<u8>, KvError>)
        requires
            self.wf(),
        ensures
            !self.actors().contains_key(actor@) <==> (r matches Err(e) && e is Configuration),
            r matches Err(e) ==> e is Configuration || e is StoreOperation,
            r matches Ok(b) ==> b@ == encoded_del_response(req.key@),
    {
        self.del(actor, DelRequest { key: req.key })
    }

    /// The elements within an inclusive index range of the list at the key.
    pub fn list_range(&self, actor: &str, req: ListRangeRequest) -> (r: Result<Vec<u8>, KvError>)
        requires
            self.wf(),
        ensures
            !self.actors().contains_key(actor@) <==> (r matches Err(e) && e is Configuration),
            r matches Err(e) ==> e is Configuration || e is StoreOperation,
            r matches Ok(b) ==> exists|vs: Seq<Seq<char>>| b@ == encoded_list_range_response(vs),
    {
        let mut con = match self.resolve(actor) {
            Ok(c) => c,
            Err(e) => {
                return Err(e);
            },
        };
        Self::list_range_on(&mut con, req)
    }

    /// Prepends the value to the list at the key and replies with the new
    /// element count.
    pub fn list_push(&self, actor: &str, req: ListPushRequest) -> (r: Result<Vec<u8>, KvError>)
        requires
            self.wf(),
        ensures
            !self.actors().contains_key(actor@) <==> (r matches Err(e) && e is Configuration),
            r matches Err(e) ==> e is Configuration || e is StoreOperation,
            r matches Ok(b) ==> exists|n: i32| b@ == encoded_list_response(n),
    {
        let mut con = match self.resolve(actor) {
            Ok(c) => c,
            Err(e) => {
                return Err(e);
            },
        };
        Self::list_push_on(&mut con, req)
    }

    /// Stores a scalar at the key and echoes the value stored.
    pub fn set(&self, actor: &str, req: SetRequest) -> (r: Result<Vec<u8>, KvError>)
        requires
            self.wf(),
        ensures
            !self.actors().contains_key(actor@) <==> (r matches Err(e) && e is Configuration),
            r matches Err(e) ==> e is Configuration || e is StoreOperation,
            r matches Ok(b) ==> b@ == encoded_set_response(req.value@),
    {
        let mut con = match self.resolve(actor) {
            Ok(c) => c,
            Err(e) => {
                return Err(e);
            },
        };
        Self::set_on(&mut con, req)
    }

    /// Deletes every occurrence of the value from the list at the key and
    /// replies with the number removed.
    pub fn list_del_item(&self, actor: &str, req: ListDelItemRequest) -> (r: Result<
        Vec<u8>,
        KvError,
    >)
        requires
            self.wf(),
        ensures
            !self.actors().contains_key(actor@) <==> (r matches Err(e) && e is Configuration),
            r matches Err(e) ==> e is Configuration || e is StoreOperation,
            r matches Ok(b) ==> exists|n: i32| b@ == encoded_list_response(n),
    {
        let mut con = match self.resolve(actor) {
            Ok(c) => c,
            Err(e) => {
                return Err(e);
            },
        };
        Self::list_del_item_on(&mut con, req)
    }

    /// Adds the value to the set at the key. The reply hands on the store
    /// client's count of members the command added, zero or one, as the
    /// SADD command defines it; the reference store's set operation replies
    /// with the member count after the mutation instead, which one command
    /// on this path cannot observe.
    pub fn set_add(&self, actor: &str, req: SetAddRequest) -> (r: Result<Vec<u8>, KvError>)
        requires
            self.wf(),
        ensures
            !self.actors().contains_key(actor@) <==> (r matches Err(e) && e is Configuration),
            r matches Err(e) ==> e is Configuration || e is StoreOperation,
            r matches Ok(b) ==> exists|n: i32| 0 <= n <= 1 && b@ == encoded_set_operation_response(
                n,
            ),
    {
        let mut con = match self.resolve(actor) {
            Ok(c) => c,
            Err(e) => {
                return Err(e);
            },
        };
        Self::set_add_on(&mut con, req)
    }

    /// Removes the value from the set at the key. The reply hands on the
    /// store client's count of members the command removed, zero or one, as
    /// the SREM command defines it; the reference store's set operation
    /// replies with the member count after the mutation instead, which one
    /// command on this path cannot observe.
    pub fn set_remove(&self, actor: &str, req: SetRemoveRequest) -> (r: Result<Vec<u8>, KvError>)
        requires
            self.wf(),
        ensures
            !self.actors().contains_key(actor@) <==> (r matches Err(e) && e is Configuration),
            r matches Err(e) ==> e is Configuration || e is StoreOperation,
            r matches Ok(b) ==> exists|n: i32| 0 <= n <= 1 && b@ == encoded_set_operation_response(
                n,
            ),
    {
        let mut con = match self.resolve(actor) {
            Ok(c) => c,
            Err(e) => {
                return Err(e);
            },
        };
        Self::set_remove_on(&mut con, req)
    }

    /// The union of the sets named by the keys, each member once.
    pub fn set_union(&self, actor: &str, req: SetUnionRequest) -> (r: Result<Vec<u8>, KvError>)
        requires
            self.wf(),
        ensures
            !self.actors().contains_key(actor@) <==> (r matches Err(e) && e is Configuration),
            r matches Err(e) ==> e is Configuration || e is StoreOperation,
            r matches Ok(b) ==> exists|vs: Seq<Seq<char>>|
                vs.no_duplicates() && b@ == encoded_set_query_response(vs),
    {
        let mut con = match self.resolve(actor) {
            Ok(c) => c,
            Err(e) => {
                return Err(e);
            },
        };
        Self::set_union_on(&mut con, req)
    }

    /// The intersection of the sets named by the keys, each member once.
    pub fn set_intersect(&self, actor: &str, req: SetIntersectionRequest) -> (r: Result<
        Vec<u8>,
        KvError,
    >)
        requires
            self.wf(),
        ensures
            !self.actors().contains_key(actor@) <==> (r matches Err(e) && e is Configuration),
            r matches Err(e) ==> e is Configuration || e is StoreOperation,
            r matches Ok(b) ==> exists|vs: Seq<Seq<char>>|
                vs.no_duplicates() && b@ == encoded_set_query_response(vs),
    {
        let mut con = match self.resolve(actor) {
            Ok(c) => c,
            Err(e) => {
                return Err(e);
            },
        };
        Self::set_intersect_on(&mut con, req)
    }

    /// All members of the set at the key.
    pub fn set_query(&self, actor: &str, req: SetQueryRequest) -> (r: Result<Vec<u8>, KvError>)
        requires
            self.wf(),
        ensures
            !self.actors().contains_key(actor@) <==> (r matches Err(e) && e is Configuration),
            r matches Err(e) ==> e is Configuration || e is StoreOperation,
            r matches Ok(b) ==> exists|vs: Seq<Seq<char>>|
                vs.no_duplicates() && b@ == encoded_set_query_response(vs),
    {
        let mut con = match self.resolve(actor) {
            Ok(c) => c,
            Err(e) => {
                return Err(e);
            },
        };
        Self::set_query_on(&mut con, req)
    }

    /// Whether the key exists, of any type.
    pub fn key_exists(&self, actor: &str, req: KeyExistsQuery) -> (r: Result<Vec<u8>, KvError>)
        requires
            self.wf(),
        ensures
            !self.actors().contains_key(actor@) <==> (r matches Err(e) && e is Configuration),
            r matches Err(e) ==> e is Configuration || e is StoreOperation,
            r matches Ok(b) ==> exists|ex: bool| b@ == encoded_get_response(
                Seq::<char>::empty(),
                ex,
            ),
    {
        let mut con = match self.resolve(actor) {
            Ok(c) => c,
            Err(e) => {
                return Err(e);
            },
        };
        Self::key_exists_on(&mut con, req)
    }

    /// The capability this provider exposes.
    pub fn capability_id(&self) -> (r: &'static str)
        ensures
            r@ == "wascc:keyvalue"@,
    {
        "wascc:keyvalue"
    }

    /// The provider's descriptive name.
    pub fn name(&self) -> (r: &'static str)
        ensures
            r@ == "waSCC Default Key-Value Provider (Redis)"@,
    {
        "waSCC Default Key-Value Provider (Redis)"
    }

    /// A clone of the actor's registered client, for producing connections
    /// outside the registry's lock scope. An unregistered actor is a
    /// configuration error.
    pub fn client_for(&self, actor: &str) -> (r: Result<redis::Client, KvError>)
        requires
            self.wf(),
        ensures
            !self.actors().contains_key(actor@) <==> (r matches Err(e) && e is Configuration),
    {
        match self.registry.lookup(actor) {
            Ok(c) => Ok(clone_client(c)),
            Err(e) => Err(e),
        }
    }

    /// The add operation on one connection.
    pub fn add_on(con: &mut redis::Connection, req: AddRequest) -> (r: Result<Vec<u8>, KvError>)
        ensures
            r matches Ok(b) ==> exists|n: i32| b@ == encoded_add_response(n),
            r matches Err(e) ==> e is StoreOperation,
    {
        let n = match redis_incr(con, req.key.as_str(), req.value) {
            Ok(n) => n,
            Err(e) => {
                return Err(e);
            },
        };
        add_reply(n)
    }

    /// The delete operation on one connection.
    pub fn del_on(con: &mut redis::Connection, req: DelRequest) -> (r: Result<Vec<u8>, KvError>)
        ensures
            r matches Ok(b) ==> b@ == encoded_del_response(req.key@),
            r matches Err(e) ==> e is StoreOperation,
    {
        match redis_del(con, req.key.as_str()) {
            Ok(_) => (),
            Err(e) => {
                return Err(e);
            },
        }
        Ok(encode_del_response(req.key))
    }

    /// The read operation on one connection.
    pub fn get_on(con: &mut redis::Connection, req: GetRequest) -> (r: Result<Vec<u8>, KvError>)
        ensures
            r matches Ok(b) ==> exists|v: Seq<char>, ex: bool|
                b@ == encoded_get_response(v, ex) && (!ex ==> v == Seq::<char>::empty()),
            r matches Err(e) ==> e is StoreOperation,
    {
        let there = match redis_exists(con, req.key.as_str()) {
            Ok(x) => x,
            Err(e) => {
                return Err(e);
            },
        };
        if !there {
            return Ok(get_reply(None));
        }
        match redis_get(con, req.key.as_str()) {
            Ok(read) => Ok(get_reply(read)),
            Err(e) => Err(e),
        }
    }

    /// The list-clear operation on one connection: a delete.
    pub fn list_clear_on(con: &mut redis::Connection, req: ListClearRequest) -> (r: Result<
        Vec<u8>,
        KvError,
    >)
        ensures
            r matches Ok(b) ==> b@ == encoded_del_response(req.key@),
            r matches Err(e) ==> e is StoreOperation,
    {
        Self::del_on(con, DelRequest { key: req.key })
    }

    /// The list-range operation on one connection.
    pub fn list_range_on(con: &mut redis::Connection, req: ListRangeRequest) -> (r: Result<
        Vec<u8>,
        KvError,
    >)
        ensures
            r matches Ok(b) ==> exists|vs: Seq<Seq<char>>| b@ == encoded_list_range_response(vs),
            r matches Err(e) ==> e is StoreOperation,
    {
        match redis_lrange(con, req.key.as_str(), req.start, req.stop) {
            Ok(values) => Ok(encode_list_range_response(values)),
            Err(e) => Err(e),
        }
    }

    /// The list-push operation on one connection.
    pub fn list_push_on(con: &mut redis::Connection, req: ListPushRequest) -> (r: Result<
        Vec<u8>,
        KvError,
    >)
        ensures
            r matches Ok(b) ==> exists|n: i32| b@ == encoded_list_response(n),
            r matches Err(e) ==> e is StoreOperation,
    {
        let n = match redis_lpush(con, req.key.as_str(), req.value.as_str()) {
            Ok(n) => n,
            Err(e) => {
                return Err(e);
            },
        };
        list_count_reply(n)
    }

    /// The set-scalar operation on one connection.
    pub fn set_on(con: &mut redis::Connection, req: SetRequest) -> (r: Result<Vec<u8>, KvError>)
        ensures
            r matches Ok(b) ==> b@ == encoded_set_response(req.value@),
            r matches Err(e) ==> e is StoreOperation,
    {
        match redis_set(con, req.key.as_str(), req.value.as_str()) {
            Ok(_) => (),
            Err(e) => {
                return Err(e);
            },
        }
        Ok(encode_set_response(req.value))
    }

    /// The list-item deletion on one connection.
    pub fn list_del_item_on(con: &mut redis::Connection, req: ListDelItemRequest) -> (r: Result<
        Vec<u8>,
        KvError,
    >)
        ensures
            r matches Ok(b) ==> exists|n: i32| b@ == encoded_list_response(n),
            r matches Err(e) ==> e is StoreOperation,
    {
        let n = match redis_lrem(con, req.key.as_str(), 0, req.value.as_str()) {
            Ok(n) => n,
            Err(e) => {
                return Err(e);
            },
        };
        list_count_reply(n)
    }

    /// The set-add operation on one connection.
    pub fn set_add_on(con: &mut redis::Connection, req: SetAddRequest) -> (r: Result<
        Vec<u8>,
        KvError,
    >)
        ensures
            r matches Ok(b) ==> exists|n: i32| 0 <= n <= 1 && b@ == encoded_set_operation_response(
                n,
            ),
            r matches Err(e) ==> e is StoreOperation,
    {
        let n = match redis_sadd(con, req.key.as_str(), req.value.as_str()) {
            Ok(n) => n,
            Err(e) => {
                return Err(e);
            },
        };
        set_count_reply(n)
    }

    /// The set-remove operation on one connection.
    pub fn set_remove_on(con: &mut redis::Connection, req: SetRemoveRequest) -> (r: Result<
        Vec<u8>,
        KvError,
    >)
        ensures
            r matches Ok(b) ==> exists|n: i32| 0 <= n <= 1 && b@ == encoded_set_operation_response(
                n,
            ),
            r matches Err(e) ==> e is StoreOperation,
    {
        let n = match redis_srem(con, req.key.as_str(), req.value.as_str()) {
            Ok(n) => n,
            Err(e) => {
                return Err(e);
            },
        };
        set_count_reply(n)
    }

    /// The set-union operation on one connection.
    pub fn set_union_on(con: &mut redis::Connection, req: SetUnionRequest) -> (r: Result<
        Vec<u8>,
        KvError,
    >)
        ensures
            r matches Ok(b) ==> exists|vs: Seq<Seq<char>>|
                vs.no_duplicates() && b@ == encoded_set_query_response(vs),
            r matches Err(e) ==> e is StoreOperation,
    {
        match redis_sunion(con, &req.keys) {
            Ok(values) => Ok(encode_set_query_response(values)),
            Err(e) => Err(e),
        }
    }

    /// The set-intersection operation on one connection.
    pub fn set_intersect_on(con: &mut redis::Connection, req: SetIntersectionRequest) -> (r: Result<
        Vec<u8>,
        KvError,
    >)
        ensures
            r matches Ok(b) ==> exists|vs: Seq<Seq<char>>|
                vs.no_duplicates() && b@ == encoded_set_query_response(vs),
            r matches Err(e) ==> e is StoreOperation,
    {
        match redis_sinter(con, &req.keys) {
            Ok(values) => Ok(encode_set_query_response(values)),
            Err(e) => Err(e),
        }
    }

    /// The set-query operation on one connection.
    pub fn set_query_on(con: &mut redis::Connection, req: SetQueryRequest) -> (r: Result<
        Vec<u8>,
        KvError,
    >)
        ensures
            r matches Ok(b) ==> exists|vs: Seq<Seq<char>>|
                vs.no_duplicates() && b@ == encoded_set_query_response(vs),
            r matches Err(e) ==> e is StoreOperation,
    {
        match redis_smembers(con, req.key.as_str()) {
            Ok(values) => Ok(encode_set_query_response(values)),
            Err(e) => Err(e),
        }
    }

    /// The existence check on one connection.
    pub fn key_exists_on(con: &mut redis::Connection, req: KeyExistsQuery) -> (r: Result<
        Vec<u8>,
        KvError,
    >)
        ensures
            r matches Ok(b) ==> exists|ex: bool| b@ == encoded_get_response(
                Seq::<char>::empty(),
                ex,
            ),
            r matches Err(e) ==> e is StoreOperation,
    {
        match redis_exists(con, req.key.as_str()) {
            Ok(there) => Ok(encode_get_response(String::new(), there)),
            Err(e) => Err(e),
        }
    }

    /// Dispatches one store operation on a connection already produced for
    /// the calling actor, so that whoever guards the registry can release
    /// it before any store command: the lock scope stays limited to the map
    /// access. Configuration is refused here as on every store path.
    pub fn handle_store_call_on(con: &mut redis::Connection, op: &str, msg: &[u8]) -> (r: Result<
        Vec<u8>,
        KvError,
    >)
        ensures
            match Self::op_of(op@) {
                None => r matches Err(e) && e is Protocol,
                Some(o) => {
                    if o is Configure {
                        r matches Err(e) && e is Protocol
                    } else if !Self::request_decodes(o, msg@) {
                        r matches Err(e) && e is Protocol
                    } else {
                        &&& (r matches Ok(b) ==> Self::dispatch_ok(o, msg@, b@))
                        &&& (r matches Err(e) ==> e is StoreOperation)
                    }
                },
            },
    {
        let code = match Self::parse_op(op) {
            Some(o) => o,
            None => {
                return Err(KvError::Protocol(owned("unsupported operation")));
            },
        };
        match code {
            Op::Configure => Err(KvError::Protocol(owned(
                "configuration needs exclusive access to the registry",
            ))),
            Op::Add => {
                let q = match decode_add_request(msg) {
                    Ok(q) => q,
                    Err(e) => {
                        return Err(e);
                    },
                };
                Self::add_on(con, q)
            },
            Op::Del => {
                let q = match decode_del_request(msg) {
                    Ok(q) => q,
                    Err(e) => {
                        return Err(e);
                    },
                };
                Self::del_on(con, q)
            },
            Op::Get => {
                let q = match decode_get_request(msg) {
                    Ok(q) => q,
                    Err(e) => {
                        return Err(e);
                    },
                };
                Self::get_on(con, q)
            },
            Op::ListClear => {
                let q = match decode_list_clear_request(msg) {
                    Ok(q) => q,
                    Err(e) => {
                        return Err(e);
                    },
                };
                Self::list_clear_on(con, q)
            },
            Op::ListRange => {
                let q = match decode_list_range_request(msg) {
                    Ok(q) => q,
                    Err(e) => {
                        return Err(e);
                    },
                };
                Self::list_range_on(con, q)
            },
            Op::ListPush => {
                let q = match decode_list_push_request(msg) {
                    Ok(q) => q,
                    Err(e) => {
                        return Err(e);
                    },
                };
                Self::list_push_on(con, q)
            },
            Op::SetValue => {
                let q = match decode_set_request(msg) {
                    Ok(q) => q,
                    Err(e) => {
                        return Err(e);
                    },
                };
                Self::set_on(con, q)
            },
            Op::ListDelItem => {
                let q = match decode_list_del_item_request(msg) {
                    Ok(q) => q,
                    Err(e) => {
                        return Err(e);
                    },
                };
                Self::list_del_item_on(con, q)
            },
            Op::SetAdd => {
                let q = match decode_set_add_request(msg) {
                    Ok(q) => q,
                    Err(e) => {
                        return Err(e);
                    },
                };
                Self::set_add_on(con, q)
            },
            Op::SetRemove => {
                let q = match decode_set_remove_request(msg) {
                    Ok(q) => q,
                    Err(e) => {
                        return Err(e);
                    },
                };
                Self::set_remove_on(con, q)
            },
            Op::SetUnion => {
                let q = match decode_set_union_request(msg) {
                    Ok(q) => q,
                    Err(e) => {
                        return Err(e);
                    },
                };
                Self::set_union_on(con, q)
            },
            Op::SetIntersect => {
                let q = match decode_set_intersection_request(msg) {
                    Ok(q) => q,
                    Err(e) => {
                        return Err(e);
                    },
                };
                Self::set_intersect_on(con, q)
            },
            Op::SetQuery => {
                let q = match decode_set_query_request(msg) {
                    Ok(q) => q,
                    Err(e) => {
                        return Err(e);
                    },
                };
                Self::set_query_on(con, q)
            },
            Op::KeyExists => {
                let q = match decode_key_exists_query(msg) {
                    Ok(q) => q,
                    Err(e) => {
                        return Err(e);
                    },
                };
                Self::key_exists_on(con, q)
            },
        }
    }

    /// Dispatches one store operation: decodes the payload into the
    /// operation's request, invokes the matching handler for the calling
    /// actor, and encodes the reply. This entry point takes the provider by
    /// shared reference, so any number of callers may dispatch store
    /// operations concurrently; configuration, the one exclusive update,
    /// goes through [`Self::handle_call`] and is refused here.
    pub fn handle_store_call(&self, actor: &str, op: &str, msg: &[u8]) -> (r: Result<
        Vec<u8>,
        KvError,
    >)
        requires
            self.wf(),
        ensures
            match Self::op_of(op@) {
                None => r matches Err(e) && e is Protocol,
                Some(o) => {
                    if o is Configure {
                        r matches Err(e) && e is Protocol
                    } else if !Self::request_decodes(o, msg@) {
                        r matches Err(e) && e is Protocol
                    } else {
                        &&& (!self.actors().contains_key(actor@) <==> (r matches Err(e)
                            && e is Configuration))
                        &&& (r matches Ok(b) ==> Self::dispatch_ok(o, msg@, b@))
                    }
                },
            },
    {
        let code = match Self::parse_op(op) {
            Some(o) => o,
            None => {
                return Err(KvError::Protocol(owned("unsupported operation")));
            },
        };
        match code {
            Op::Configure => Err(KvError::Protocol(owned(
                "configuration needs exclusive access to the registry",
            ))),
            Op::Add => {
                let q = match decode_add_request(msg) {
                    Ok(q) => q,
                    Err(e) => {
                        return Err(e);
                    },
                };
                self.add(actor, q)
            },
            Op::Del => {
                let q = match decode_del_request(msg) {
                    Ok(q) => q,
                    Err(e) => {
                        return Err(e);
                    },
                };
                self.del(actor, q)
            },
            Op::Get => {
                let q = match decode_get_request(msg) {
                    Ok(q) => q,
                    Err(e) => {
                        return Err(e);
                    },
                };
                self.get(actor, q)
            },
            Op::ListClear => {
                let q = match decode_list_clear_request(msg) {
                    Ok(q) => q,
                    Err(e) => {
                        return Err(e);
                    },
                };
                self.list_clear(actor, q)
            },
            Op::ListRange => {
                let q = match decode_list_range_request(msg) {
                    Ok(q) => q,
                    Err(e) => {
                        return Err(e);
                    },
                };
                self.list_range(actor, q)
            },
            Op::ListPush => {
                let q = match decode_list_push_request(msg) {
                    Ok(q) => q,
                    Err(e) => {
                        return Err(e);
                    },
                };
                self.list_push(actor, q)
            },
            Op::SetValue => {
                let q = match decode_set_request(msg) {
                    Ok(q) => q,
                    Err(e) => {
                        return Err(e);
                    },
                };
                self.set(actor, q)
            },
            Op::ListDelItem => {
                let q = match decode_list_del_item_request(msg) {
                    Ok(q) => q,
                    Err(e) => {
                        return Err(e);
                    },
                };
                self.list_del_item(actor, q)
            },
            Op::SetAdd => {
                let q = match decode_set_add_request(msg) {
                    Ok(q) => q,
                    Err(e) => {
                        return Err(e);
                    },
                };
                self.set_add(actor, q)
            },
            Op::SetRemove => {
                let q = match decode_set_remove_request(msg) {
                    Ok(q) => q,
                    Err(e) => {
                        return Err(e);
                    },
                };
                self.set_remove(actor, q)
            },
            Op::SetUnion => {
                let q = match decode_set_union_request(msg) {
                    Ok(q) => q,
                    Err(e) => {
                        return Err(e);
                    },
                };
                self.set_union(actor, q)
            },
            Op::SetIntersect => {
                let q = match decode_set_intersection_request(msg) {
                    Ok(q) => q,
                    Err(e) => {
                        return Err(e);
                    },
                };
                self.set_intersect(actor, q)
            },
            Op::SetQuery => {
                let q = match decode_set_query_request(msg) {
                    Ok(q) => q,
                    Err(e) => {
                        return Err(e);
                    },
                };
                self.set_query(actor, q)
            },
            Op::KeyExists => {
                let q = match decode_key_exists_query(msg) {
                    Ok(q) => q,
                    Err(e) => {
                        return Err(e);
                    },
                };
                self.key_exists(actor, q)
            },
        }
    }

    /// The dispatch entry point. Decodes the payload into the operation's
    /// request, invokes the matching handler for the calling actor, and
    /// encodes the reply. An unknown code, a configuration call from any
    /// actor but the system identity, and a payload that does not decode
    /// are protocol errors, except that a malformed configuration record is
    /// a configuration error; an actor with no registration is a
    /// configuration error; a failed store command is a store failure.
    pub fn handle_call(&mut self, actor: &str, op: &str, msg: &[u8]) -> (r: Result<Vec<u8>, KvError>)
        requires
            old(self).wf(),
        ensures
            final(self).wf(),
            match Self::op_of(op@) {
                None => final(self).actors() == old(self).actors() && (r matches Err(e)
                    && e is Protocol),
                Some(o) => {
                    &&& (!(o is Configure) ==> final(self).actors() == old(self).actors())
                    &&& if o is Configure && actor@ != "system"@ {
                        final(self).actors() == old(self).actors() && (r matches Err(e)
                            && e is Protocol)
                    } else if !Self::request_decodes(o, msg@) {
                        final(self).actors() == old(self).actors() && (r matches Err(e) && (
                        if o is Configure {
                            e is Configuration
                        } else {
                            e is Protocol
                        }))
                    } else if o is Configure {
                        match decoded_configuration(msg@) {
                            Some(cfg) => {
                                &&& (r is Ok <==> valid_redis_url(config_url(cfg.1)))
                                &&& (r matches Ok(b) ==> b@ == Seq::<u8>::empty()
                                    && (exists|c: redis::Client|
                                    final(self).actors() == old(self).actors().insert(cfg.0, c)))
                                &&& (r matches Err(e) ==> e is Configuration
                                    && final(self).actors() == old(self).actors())
                            },
                            None => false,
                        }
                    } else {
                        &&& (!old(self).actors().contains_key(actor@) <==> (r matches Err(e)
                            && e is Configuration))
                        &&& (r matches Ok(b) ==> Self::dispatch_ok(o, msg@, b@))
                    }
                },
            },
    {
        let code = match Self::parse_op(op) {
            Some(o) => o,
            None => {
                return Err(KvError::Protocol(owned("unsupported operation")));
            },
        };
        match code {
            Op::Configure => {
                if !str_eq(actor, "system") {
                    return Err(KvError::Protocol(owned(
                        "configuration is reserved to the system identity",
                    )));
                }
                let cfg = match decode_configuration(msg) {
                    Ok(c) => c,
                    Err(e) => {
                        // a malformed configuration payload is a configuration
                        // error, not a protocol error
                        return Err(KvError::Configuration(owned(e.message())));
                    },
                };
                let url = match cfg.1 {
                    Some(u) => u,
                    None => owned("redis://0.0.0.0:6379/"),
                };
                let ghost pre = self.actors();
                let module = cfg.0;
                let ghost mv = module@;
                let res = self.configure(Configuration { module, url });
                proof {
                    if res is Ok {
                        let c = choose|c: redis::Client| self.actors() == pre.insert(mv, c);
                        assert(self.actors() == pre.insert(mv, c));
                        assert(decoded_configuration(msg@) matches Some(p) ==> self.actors()
                            == pre.insert(p.0, c));
                    }
                }
                res
            },
            _ => self.handle_store_call(actor, op, msg),
        }
    }
}

} // verus!
