//! The store-level guarantees of the operation catalog, stated over the
//! same models that the operations' own contracts use: the store view
//! (`Map<Seq<char>, ValModel>`) and the registry view.

use vstd::prelude::*;
use crate::num::{dec_repr, lemma_dec_repr_val};
use crate::store::{Store, ValModel};

verus! {

/// Deleting a key twice in a row: the second delete finds the state the
/// first left, and changes nothing. Together with `Store::del`, whose
/// contract has no failure case, a repeated delete never errors.
pub proof fn law_del_idempotent(m: Map<Seq<char>, ValModel>, k: Seq<char>)
    ensures
        m.remove(k).remove(k) == m.remove(k),
{
    assert(m.remove(k).remove(k) =~= m.remove(k));
}

/// Setting a key and reading it back: after `Store::set(k, v)` the store
/// maps `k` to the scalar `v`, so `Store::get(k)` answers `v` with the
/// existence flag up.
pub proof fn law_set_get_round_trip(m: Map<Seq<char>, ValModel>, k: Seq<char>, v: Seq<char>)
    ensures
        m.insert(k, ValModel::Str(v)).contains_key(k),
        m.insert(k, ValModel::Str(v))[k] == ValModel::Str(v),
{
}

/// A registration is visible to every later lookup: after registering a
/// client for an actor, the registry maps that actor to that client.
pub proof fn law_register_visible(
    m: Map<Seq<char>, redis::Client>,
    actor: Seq<char>,
    c: redis::Client,
)
    ensures
        m.insert(actor, c).contains_key(actor),
        m.insert(actor, c)[actor] == c,
{
}

/// Adding to a number twice equals one add of the sum: starting from a
/// numeric reading `n` at the key, `Add(d1)` then `Add(d2)` leaves the very
/// store state that a single `Add(d1 + d2)` leaves, as long as neither sum
/// leaves the stored range.
pub proof fn law_add_twice(m: Map<Seq<char>, ValModel>, k: Seq<char>, n: int, d1: int, d2: int)
    requires
        Store::num_at(m, k) == Some(n),
        i64::MIN <= n + d1 <= i64::MAX,
        i64::MIN <= n + d1 + d2 <= i64::MAX,
    ensures
        ({
            let m1 = m.insert(k, ValModel::Str(dec_repr(n + d1)));
            &&& Store::num_at(m1, k) == Some(n + d1)
            &&& m1.insert(k, ValModel::Str(dec_repr(n + d1 + d2))) == m.insert(
                k,
                ValModel::Str(dec_repr(n + d1 + d2)),
            )
        }),
{
    lemma_dec_repr_val(n + d1);
    let m1 = m.insert(k, ValModel::Str(dec_repr(n + d1)));
    assert(m1.insert(k, ValModel::Str(dec_repr(n + d1 + d2))) =~= m.insert(
        k,
        ValModel::Str(dec_repr(n + d1 + d2)),
    ));
}

/// Adding a member twice is the first add alone: the set after the second
/// add, its member count, and the whole store state are those the first
/// add left.
pub proof fn law_set_add_idempotent(
    m: Map<Seq<char>, ValModel>,
    k: Seq<char>,
    s: Set<Seq<char>>,
    v: Seq<char>,
)
    requires
        Store::set_at(m, k) == Some(s),
        s.finite(),
    ensures
        ({
            let s1 = s.insert(v);
            let m1 = m.insert(k, ValModel::SetV(s1));
            &&& Store::set_at(m1, k) == Some(s1)
            &&& s1.insert(v) == s1
            &&& s1.insert(v).len() == s1.len()
            &&& m1.insert(k, ValModel::SetV(s1.insert(v))) == m1
        }),
{
    let s1 = s.insert(v);
    let m1 = m.insert(k, ValModel::SetV(s1));
    assert(s1.insert(v) =~= s1);
    assert(m1.insert(k, ValModel::SetV(s1.insert(v))) =~= m1);
}

/// A union holds each member exactly once, and exactly the members of its
/// operands: what `Store::set_union` replies carries no duplicates (its
/// contract), and the union of two sets contains a member exactly when one
/// of the two does.
pub proof fn law_union_members(s1: Set<Seq<char>>, s2: Set<Seq<char>>, x: Seq<char>)
    ensures
        s1.union(s2).contains(x) <==> s1.contains(x) || s2.contains(x),
{
}

/// Two pushes read back most-recent-first: after `ListPush(a)` then
/// `ListPush(b)` on a list `l`, the full range (first to last, the stop
/// index counting one from the end) is `b`, then `a`, then `l`.
pub proof fn law_push_order(l: Seq<Seq<char>>, a: Seq<char>, b: Seq<char>)
    ensures
        ({
            let l2 = seq![b] + (seq![a] + l);
            &&& l2[0] == b
            &&& l2[1] == a
            &&& Store::range_of(l2, 0, -1) == l2
        }),
{
    let l2 = seq![b] + (seq![a] + l);
    assert(Store::range_of(l2, 0, -1) =~= l2);
}

} // verus!
