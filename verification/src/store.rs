//! A verified reference store: the semantics of every store operation the
//! provider dispatches, over an explicit in-memory state.
//!
//! Each operation's contract is the provider's per-operation policy: what a
//! backing store bound to one actor is asked to do with one command. The
//! store maps keys to values; a value is a scalar string, a list, or a set.

use vstd::prelude::*;
use vstd::string::StringExecFns;
use vstd::seq_lib::lemma_seq_contains_after_push;
use vstd::seq_lib::seq_to_set_is_finite;
use crate::error::KvError;
use crate::msg::GetResponse;
use crate::num::{is_i64_dec, dec_value, dec_repr, parse_i64, format_i64};

verus! {

broadcast use vstd::set::group_set_axioms, lemma_seq_contains_after_push, seq_to_set_is_finite;

/// The result of deleting every occurrence of `v` from a list.
pub open spec fn seq_remove_all(s: Seq<Seq<char>>, v: Seq<char>) -> Seq<Seq<char>>
    decreases s.len(),
{
    if s.len() == 0 {
        Seq::empty()
    } else {
        let r = seq_remove_all(s.drop_last(), v);
        if s.last() == v {
            r
        } else {
            r.push(s.last())
        }
    }
}

/// The subsequence of members that the `allow` set keeps.
pub open spec fn seq_retain(s: Seq<Seq<char>>, allow: Set<Seq<char>>) -> Seq<Seq<char>>
    decreases s.len(),
{
    if s.len() == 0 {
        Seq::empty()
    } else {
        let r = seq_retain(s.drop_last(), allow);
        if allow.contains(s.last()) {
            r.push(s.last())
        } else {
            r
        }
    }
}

proof fn lemma_no_dup_push(s: Seq<Seq<char>>, x: Seq<char>)
    requires
        s.no_duplicates(),
        !s.contains(x),
    ensures
        s.push(x).no_duplicates(),
{
    let t = s.push(x);
    assert forall|i: int, j: int|
        0 <= i < t.len() && 0 <= j < t.len() && i != j implies t[i] != t[j] by {
        if i < s.len() && j < s.len() {
            assert(s[i] == t[i] && s[j] == t[j]);
        } else if j == s.len() && i < s.len() {
            if t[i] == x {
                assert(s.contains(x));
            }
        } else if i == s.len() && j < s.len() {
            if t[j] == x {
                assert(s.contains(x));
            }
        }
    }
}

proof fn lemma_remove_all_props(s: Seq<Seq<char>>, v: Seq<char>)
    ensures
        seq_remove_all(s, v).len() <= s.len(),
        forall|x: Seq<char>|
            #[trigger] seq_remove_all(s, v).contains(x) <==> s.contains(x) && x != v,
        s.no_duplicates() ==> seq_remove_all(s, v).no_duplicates(),
    decreases s.len(),
{
    if s.len() > 0 {
        let d = s.drop_last();
        lemma_remove_all_props(d, v);
        if s.no_duplicates() {
            assert(d.no_duplicates());
            assert(!d.contains(s.last())) by {
                if d.contains(s.last()) {
                    let i = choose|i: int| 0 <= i < d.len() && d[i] == s.last();
                    assert(s[i] == s.last());
                }
            }
            if s.last() != v {
                assert(!seq_remove_all(d, v).contains(s.last()));
                lemma_no_dup_push(seq_remove_all(d, v), s.last());
            }
        }
        assert forall|x: Seq<char>| s.contains(x) && x != v implies #[trigger] seq_remove_all(
            s,
            v,
        ).contains(x) by {
            let i = choose|i: int| 0 <= i < s.len() && s[i] == x;
            if i < s.len() - 1 {
                assert(d[i] == x);
                assert(d.contains(x));
            }
        }
        assert forall|x: Seq<char>| #[trigger] seq_remove_all(s, v).contains(x) implies s.contains(
            x,
        ) && x != v by {
            if d.contains(x) {
                let i = choose|i: int| 0 <= i < d.len() && d[i] == x;
                assert(s[i] == x);
            }
        }
    }
}

proof fn lemma_retain_props(s: Seq<Seq<char>>, allow: Set<Seq<char>>)
    ensures
        forall|x: Seq<char>|
            #[trigger] seq_retain(s, allow).contains(x) <==> s.contains(x) && allow.contains(x),
        s.no_duplicates() ==> seq_retain(s, allow).no_duplicates(),
    decreases s.len(),
{
    if s.len() > 0 {
        let d = s.drop_last();
        lemma_retain_props(d, allow);
        if s.no_duplicates() {
            assert(d.no_duplicates());
            assert(!d.contains(s.last())) by {
                if d.contains(s.last()) {
                    let i = choose|i: int| 0 <= i < d.len() && d[i] == s.last();
                    assert(s[i] == s.last());
                }
            }
            if allow.contains(s.last()) {
                assert(!seq_retain(d, allow).contains(s.last()));
                lemma_no_dup_push(seq_retain(d, allow), s.last());
            }
        }
        assert forall|x: Seq<char>| s.contains(x) && allow.contains(x) implies #[trigger] seq_retain(
            s,
            allow,
        ).contains(x) by {
            let i = choose|i: int| 0 <= i < s.len() && s[i] == x;
            if i < s.len() - 1 {
                assert(d[i] == x);
                assert(d.contains(x));
            }
        }
        assert forall|x: Seq<char>| #[trigger] seq_retain(s, allow).contains(x) implies s.contains(
            x,
        ) && allow.contains(x) by {
            assert(s[s.len() - 1] == s.last());
            assert(s.contains(s.last()));
            if allow.contains(s.last()) {
                assert(seq_retain(s, allow) == seq_retain(d, allow).push(s.last()));
                assert(seq_retain(d, allow).push(s.last()).contains(x));
                assert(x == s.last() || seq_retain(d, allow).contains(x));
            } else {
                assert(seq_retain(s, allow) == seq_retain(d, allow));
                assert(seq_retain(d, allow).contains(x));
            }
            if d.contains(x) {
                let i = choose|i: int| 0 <= i < d.len() && d[i] == x;
                assert(s[i] == x);
            }
        }
    }
}

/// The view of a single stored value.
pub enum ValModel {
    Str(Seq<char>),
    List(Seq<Seq<char>>),
    SetV(Set<Seq<char>>),
}

/// A stored value: a scalar string, a list of strings, or a set of strings
/// (kept as a vector without duplicates).
#[derive(Debug, Clone)]
pub enum Value {
    Scalar(String),
    List(Vec<String>),
    SetVal(Vec<String>),
}

/// The character sequences of a sequence of strings.
pub open spec fn views(s: Seq<String>) -> Seq<Seq<char>> {
    s.map_values(|x: String| x@)
}

impl View for Value {
    type V = ValModel;

    open spec fn view(&self) -> ValModel {
        match self {
            Value::Scalar(s) => ValModel::Str(s@),
            Value::List(l) => ValModel::List(views(l@)),
            Value::SetVal(m) => ValModel::SetV(views(m@).to_set()),
        }
    }
}

/// A set value carries no duplicate members.
pub open spec fn value_wf(v: Value) -> bool {
    match v {
        Value::SetVal(m) => views(m@).no_duplicates(),
        _ => true,
    }
}

/// No key appears twice among the entries.
pub open spec fn unique_keys(s: Seq<(String, Value)>) -> bool {
    forall|i: int, j: int|
        0 <= i < j < s.len() ==> (#[trigger] s[i]).0@ != (#[trigger] s[j]).0@
}

/// The map described by a sequence of entries; a later entry would win.
pub closed spec fn entries_map(s: Seq<(String, Value)>) -> Map<Seq<char>, ValModel>
    decreases s.len(),
{
    if s.len() == 0 {
        Map::empty()
    } else {
        entries_map(s.drop_last()).insert(s.last().0@, s.last().1@)
    }
}

proof fn lemma_map_index(s: Seq<(String, Value)>, i: int)
    requires
        unique_keys(s),
        0 <= i < s.len(),
    ensures
        entries_map(s).contains_key(s[i].0@),
        entries_map(s)[s[i].0@] == s[i].1@,
    decreases s.len(),
{
    if i == s.len() - 1 {
    } else {
        assert(unique_keys(s.drop_last()));
        assert(s.drop_last()[i] == s[i]);
        lemma_map_index(s.drop_last(), i);
        assert(s[i].0@ != s.last().0@);
    }
}

proof fn lemma_map_domain(s: Seq<(String, Value)>, k: Seq<char>)
    ensures
        entries_map(s).contains_key(k) <==> exists|i: int|
            0 <= i < s.len() && (#[trigger] s[i]).0@ == k,
    decreases s.len(),
{
    if s.len() > 0 {
        lemma_map_domain(s.drop_last(), k);
        if s.last().0@ == k {
            assert((s[s.len() - 1]).0@ == k);
        } else {
            let d = s.drop_last();
            if entries_map(s).contains_key(k) {
                let i = choose|i: int| 0 <= i < d.len() && (#[trigger] d[i]).0@ == k;
                assert((s[i]).0@ == k);
            }
            if exists|i: int| 0 <= i < s.len() && (#[trigger] s[i]).0@ == k {
                let i = choose|i: int| 0 <= i < s.len() && (#[trigger] s[i]).0@ == k;
                assert(i < s.len() - 1);
                assert((s.drop_last()[i]).0@ == k);
            }
        }
    }
}

proof fn lemma_map_remove(s: Seq<(String, Value)>, i: int)
    requires
        unique_keys(s),
        0 <= i < s.len(),
    ensures
        unique_keys(s.remove(i)),
        entries_map(s.remove(i)) == entries_map(s).remove(s[i].0@),
    decreases s.len(),
{
    let k = s[i].0@;
    if i == s.len() - 1 {
        assert(s.remove(i) =~= s.drop_last());
        lemma_map_domain(s.drop_last(), k);
        assert(!entries_map(s.drop_last()).contains_key(k));
        assert(entries_map(s.drop_last()) =~= entries_map(s.drop_last()).insert(
            k,
            s[i].1@,
        ).remove(k));
    } else {
        let d = s.drop_last();
        assert(unique_keys(d));
        lemma_map_remove(d, i);
        assert(s.remove(i).drop_last() =~= d.remove(i));
        assert(s.remove(i).last() == s.last());
        assert(entries_map(s.remove(i)) == entries_map(d.remove(i)).insert(
            s.last().0@,
            s.last().1@,
        ));
        assert(k != s.last().0@);
        assert(entries_map(d).remove(k).insert(s.last().0@, s.last().1@) =~= entries_map(d).insert(
            s.last().0@,
            s.last().1@,
        ).remove(k));
        assert(unique_keys(s.remove(i))) by {
            assert(forall|a: int, b: int|
                0 <= a < b < s.remove(i).len() ==> (#[trigger] s.remove(i)[a]).0@ != (
                #[trigger] s.remove(i)[b]).0@) by {
                assert(forall|a: int|
                    0 <= a < s.remove(i).len() ==> #[trigger] s.remove(i)[a] == (if a < i {
                        s[a]
                    } else {
                        s[a + 1]
                    }));
            }
        }
    }
}

fn clone_strings(v: &Vec<String>) -> (r: Vec<String>)
    ensures
        r@ == v@,
{
    let mut r: Vec<String> = Vec::new();
    let n = v.len();
    let mut j: usize = 0;
    while j < n
        invariant
            j <= n,
            n == v@.len(),
            r@ == v@.take(j as int),
        decreases n - j,
    {
        r.push(v[j].clone());
        proof {
            assert(v@.take(j + 1).drop_last() =~= v@.take(j as int));
            assert(r@ =~= v@.take(j + 1));
        }
        j = j + 1;
    }
    proof {
        assert(v@.take(n as int) =~= v@);
    }
    r
}

fn contains_str(v: &Vec<String>, x: &str) -> (r: bool)
    ensures
        r == views(v@).contains(x@),
{
    let xo = x.to_owned();
    let n = v.len();
    let mut j: usize = 0;
    while j < n
        invariant
            j <= n,
            n == v@.len(),
            xo@ == x@,
            forall|jj: int| 0 <= jj < j ==> views(v@)[jj] != x@,
        decreases n - j,
    {
        if v[j] == xo {
            assert(views(v@)[j as int] == x@);
            return true;
        }
        j = j + 1;
    }
    assert(!views(v@).contains(x@)) by {
        if views(v@).contains(x@) {
            let i = choose|i: int| 0 <= i < views(v@).len() && views(v@)[i] == x@;
        }
    }
    false
}

fn remove_all_exec(v: &Vec<String>, x: &str) -> (r: Vec<String>)
    ensures
        views(r@) == seq_remove_all(views(v@), x@),
        r@.len() <= v@.len(),
{
    let xo = x.to_owned();
    let mut r: Vec<String> = Vec::new();
    let n = v.len();
    let mut j: usize = 0;
    while j < n
        invariant
            j <= n,
            n == v@.len(),
            xo@ == x@,
            views(r@) == seq_remove_all(views(v@).take(j as int), x@),
            r@.len() <= j,
        decreases n - j,
    {
        proof {
            assert(views(v@).take(j + 1).drop_last() =~= views(v@).take(j as int));
            assert(views(v@).take(j + 1).last() == v@[j as int]@);
        }
        if !(v[j] == xo) {
            let ghost prev = views(r@);
            r.push(v[j].clone());
            proof {
                assert(views(r@) =~= prev.push(v@[j as int]@));
                assert(views(r@) =~= seq_remove_all(views(v@).take(j + 1), x@));
            }
        } else {
            proof {
                assert(views(r@) =~= seq_remove_all(views(v@).take(j + 1), x@));
            }
        }
        j = j + 1;
    }
    proof {
        assert(views(v@).take(n as int) =~= views(v@));
    }
    r
}

fn retain_exec(v: &Vec<String>, allow: &Vec<String>) -> (r: Vec<String>)
    ensures
        views(r@) == seq_retain(views(v@), views(allow@).to_set()),
{
    let ghost keep = views(allow@).to_set();
    let mut r: Vec<String> = Vec::new();
    let n = v.len();
    let mut j: usize = 0;
    while j < n
        invariant
            j <= n,
            n == v@.len(),
            keep == views(allow@).to_set(),
            views(r@) == seq_retain(views(v@).take(j as int), keep),
        decreases n - j,
    {
        proof {
            assert(views(v@).take(j + 1).drop_last() =~= views(v@).take(j as int));
            assert(views(v@).take(j + 1).last() == v@[j as int]@);
        }
        if contains_str(allow, v[j].as_str()) {
            let ghost prev = views(r@);
            r.push(v[j].clone());
            proof {
                assert(views(r@) =~= prev.push(v@[j as int]@));
                assert(views(r@) =~= seq_retain(views(v@).take(j + 1), keep));
            }
        } else {
            proof {
                assert(views(r@) =~= seq_retain(views(v@).take(j + 1), keep));
            }
        }
        j = j + 1;
    }
    proof {
        assert(views(v@).take(n as int) =~= views(v@));
    }
    r
}

/// The store: a mapping from keys to values, one per actor-scoped
/// connection, retained for the process lifetime.
pub struct Store {
    entries: Vec<(String, Value)>,
}

impl View for Store {
    type V = Map<Seq<char>, ValModel>;

    closed spec fn view(&self) -> Map<Seq<char>, ValModel> {
        entries_map(self.entries@)
    }
}

impl Store {
    /// Well-formed: keys unique, set values without duplicates.
    pub closed spec fn wf(&self) -> bool {
        &&& unique_keys(self.entries@)
        &&& forall|i: int|
            0 <= i < self.entries@.len() ==> value_wf((#[trigger] self.entries@[i]).1)
    }

    /// An empty store.
    pub fn new() -> (r: Store)
        ensures
            r.wf(),
            r@ == Map::<Seq<char>, ValModel>::empty(),
    {
        Store { entries: Vec::new() }
    }

    fn find_index(&self, key: &str) -> (r: Option<usize>)
        requires
            self.wf(),
        ensures
            match r {
                Some(i) => i < self.entries@.len() && self.entries@[i as int].0@ == key@,
                None => !self@.contains_key(key@),
            },
    {
        let k = key.to_owned();
        let n = self.entries.len();
        let mut j: usize = 0;
        while j < n
            invariant
                n == self.entries@.len(),
                j <= n,
                k@ == key@,
                forall|jj: int| 0 <= jj < j ==> (#[trigger] self.entries@[jj]).0@ != key@,
            decreases n - j,
        {
            if self.entries[j].0 == k {
                return Some(j);
            }
            j = j + 1;
        }
        proof {
            lemma_map_domain(self.entries@, key@);
        }
        None
    }

    /// Looks the key up; the returned value is the one the store maps it to.
    fn lookup(&self, key: &str) -> (r: Option<&Value>)
        requires
            self.wf(),
        ensures
            match r {
                Some(v) => self@.contains_key(key@) && v@ == self@[key@] && value_wf(*v),
                None => !self@.contains_key(key@),
            },
    {
        match self.find_index(key) {
            Some(i) => {
                proof {
                    lemma_map_index(self.entries@, i as int);
                }
                Some(&self.entries[i].1)
            },
            None => None,
        }
    }

    /// Removes the entry for the key, if any.
    fn remove_entry(&mut self, key: &str)
        requires
            old(self).wf(),
        ensures
            final(self).wf(),
            final(self)@ == old(self)@.remove(key@),
    {
        match self.find_index(key) {
            Some(i) => {
                proof {
                    lemma_map_remove(self.entries@, i as int);
                }
                self.entries.remove(i);
            },
            None => {
                proof {
                    assert(old(self)@.remove(key@) =~= old(self)@);
                }
            },
        }
    }

    /// Inserts or replaces the entry for the key.
    fn insert_entry(&mut self, key: &str, v: Value)
        requires
            old(self).wf(),
            value_wf(v),
        ensures
            final(self).wf(),
            final(self)@ == old(self)@.insert(key@, v@),
    {
        self.remove_entry(key);
        let ghost pre = self.entries@;
        proof {
            lemma_map_domain(pre, key@);
        }
        self.entries.push((key.to_owned(), v));
        proof {
            assert(self.entries@.drop_last() =~= pre);
            assert(forall|a: int, b: int|
                0 <= a < b < self.entries@.len() ==> (#[trigger] self.entries@[a]).0@ != (
                #[trigger] self.entries@[b]).0@) by {
                assert(forall|a: int|
                    0 <= a < pre.len() ==> #[trigger] self.entries@[a] == pre[a]);
            }
            assert(old(self)@.remove(key@).insert(key@, v@) =~= old(self)@.insert(key@, v@));
        }
    }

    /// Whether the key exists, of any type.
    pub fn key_exists(&self, key: &str) -> (r: bool)
        requires
            self.wf(),
        ensures
            r == self@.contains_key(key@),
    {
        match self.lookup(key) {
            Some(_) => true,
            None => false,
        }
    }

    /// Stores a scalar value at the key, replacing whatever was there.
    pub fn set(&mut self, key: &str, value: String)
        requires
            old(self).wf(),
        ensures
            final(self).wf(),
            final(self)@ == old(self)@.insert(key@, ValModel::Str(value@)),
    {
        self.insert_entry(key, Value::Scalar(value));
    }

    /// Removes the key. Removing an absent key is not an error.
    pub fn del(&mut self, key: &str)
        requires
            old(self).wf(),
        ensures
            final(self).wf(),
            final(self)@ == old(self)@.remove(key@),
    {
        self.remove_entry(key);
    }

    /// Reads the scalar at the key. An absent key is an empty value with
    /// `exists` false, never an error; a list or set at the key is a store
    /// failure.
    pub fn get(&self, key: &str) -> (r: Result<GetResponse, KvError>)
        requires
            self.wf(),
        ensures
            match r {
                Ok(g) => {
                    if self@.contains_key(key@) {
                        &&& self@[key@] matches ValModel::Str(s) && g.value@ == s
                        &&& g.exists
                    } else {
                        g.value@ == Seq::<char>::empty() && !g.exists
                    }
                },
                Err(e) => self@.contains_key(key@) && !(self@[key@] is Str) && e is StoreOperation,
            },
    {
        match self.lookup(key) {
            None => Ok(GetResponse { value: String::new(), exists: false }),
            Some(Value::Scalar(s)) => Ok(GetResponse { value: s.clone(), exists: true }),
            Some(_) => Err(KvError::StoreOperation(String::from_str(
                "value at key is not a scalar",
            ))),
        }
    }

    /// The numeric reading of the key for an atomic add: an absent key
    /// counts as zero; a scalar counts when it is a decimal integer string.
    pub open spec fn num_at(m: Map<Seq<char>, ValModel>, k: Seq<char>) -> Option<int> {
        if !m.contains_key(k) {
            Some(0)
        } else {
            match m[k] {
                ValModel::Str(s) => if is_i64_dec(s) {
                    Some(dec_value(s))
                } else {
                    None
                },
                _ => None,
            }
        }
    }

    /// Atomically adds `delta` to the numeric value at the key and stores
    /// the sum back, returning it. A non-numeric value is a store failure
    /// and leaves the store unchanged, as does a sum outside the stored
    /// range; a sum that cannot be reported in the reply is stored, and the
    /// reply is the failure.
    pub fn incr(&mut self, key: &str, delta: i32) -> (r: Result<i32, KvError>)
        requires
            old(self).wf(),
        ensures
            final(self).wf(),
            match Store::num_at(old(self)@, key@) {
                Some(cur) => {
                    if i64::MIN <= cur + delta <= i64::MAX {
                        &&& final(self)@ == old(self)@.insert(
                            key@,
                            ValModel::Str(dec_repr(cur + delta)),
                        )
                        &&& if i32::MIN <= cur + delta <= i32::MAX {
                            r matches Ok(n) && n == cur + delta
                        } else {
                            r matches Err(e) && e is StoreOperation
                        }
                    } else {
                        final(self)@ == old(self)@ && (r matches Err(e) && e is StoreOperation)
                    }
                },
                None => final(self)@ == old(self)@ && (r matches Err(e) && e is StoreOperation),
            },
    {
        let cur: i64 = match self.lookup(key) {
            None => 0,
            Some(Value::Scalar(s)) => match parse_i64(s.as_str()) {
                Some(v) => v,
                None => {
                    return Err(KvError::StoreOperation(String::from_str(
                        "value at key is not an integer",
                    )));
                },
            },
            Some(_) => {
                return Err(KvError::StoreOperation(String::from_str(
                    "value at key is not a scalar",
                )));
            },
        };
        let d: i64 = delta as i64;
        if (d >= 0 && cur > i64::MAX - d) || (d < 0 && cur < i64::MIN - d) {
            return Err(KvError::StoreOperation(String::from_str(
                "increment overflows the stored range",
            )));
        }
        let new: i64 = cur + d;
        let rendered = format_i64(new);
        self.insert_entry(key, Value::Scalar(rendered));
        if new > i32::MAX as i64 || new < i32::MIN as i64 {
            Err(KvError::StoreOperation(String::from_str(
                "sum does not fit the reply range",
            )))
        } else {
            Ok(new as i32)
        }
    }

    /// The list reading of the key: an absent key is the empty list; any
    /// non-list value refuses list operations.
    pub open spec fn list_at(m: Map<Seq<char>, ValModel>, k: Seq<char>) -> Option<Seq<Seq<char>>> {
        if !m.contains_key(k) {
            Some(Seq::empty())
        } else {
            match m[k] {
                ValModel::List(l) => Some(l),
                _ => None,
            }
        }
    }

    /// The set reading of the key: an absent key is the empty set; any
    /// non-set value refuses set operations.
    pub open spec fn set_at(m: Map<Seq<char>, ValModel>, k: Seq<char>) -> Option<Set<Seq<char>>> {
        if !m.contains_key(k) {
            Some(Set::empty())
        } else {
            match m[k] {
                ValModel::SetV(s) => Some(s),
                _ => None,
            }
        }
    }

    /// The elements of an inclusive index range, a negative index counting
    /// from the end, clamped to the list.
    pub open spec fn range_of(l: Seq<Seq<char>>, start: int, stop: int) -> Seq<Seq<char>> {
        let n = l.len() as int;
        let s0 = if start < 0 {
            start + n
        } else {
            start
        };
        let e0 = if stop < 0 {
            stop + n
        } else {
            stop
        };
        let s1 = if s0 < 0 {
            0
        } else {
            s0
        };
        let e1 = if e0 >= n {
            n - 1
        } else {
            e0
        };
        if s1 >= n || s1 > e1 {
            Seq::empty()
        } else {
            l.subrange(s1, e1 + 1)
        }
    }

    /// The union of the sets named by the keys, or nothing if any key
    /// holds a non-set value.
    pub open spec fn union_at(m: Map<Seq<char>, ValModel>, keys: Seq<Seq<char>>) -> Option<
        Set<Seq<char>>,
    >
        decreases keys.len(),
    {
        if keys.len() == 0 {
            Some(Set::empty())
        } else {
            match (Store::union_at(m, keys.drop_last()), Store::set_at(m, keys.last())) {
                (Some(u), Some(s)) => Some(u.union(s)),
                _ => None,
            }
        }
    }

    /// The intersection of the sets named by the keys; at least one key is
    /// needed, and any key holding a non-set value refuses the operation.
    pub open spec fn inter_at(m: Map<Seq<char>, ValModel>, keys: Seq<Seq<char>>) -> Option<
        Set<Seq<char>>,
    >
        decreases keys.len(),
    {
        if keys.len() == 0 {
            None
        } else if keys.len() == 1 {
            Store::set_at(m, keys[0])
        } else {
            match (Store::inter_at(m, keys.drop_last()), Store::set_at(m, keys.last())) {
                (Some(u), Some(s)) => Some(u.intersect(s)),
                _ => None,
            }
        }
    }

    /// Prepends the value to the list at the key and reports the new
    /// element count. A non-list value at the key is a store failure.
    pub fn list_push(&mut self, key: &str, value: String) -> (r: Result<i32, KvError>)
        requires
            old(self).wf(),
        ensures
            final(self).wf(),
            match Store::list_at(old(self)@, key@) {
                Some(l) => {
                    if l.len() + 1 <= i32::MAX {
                        &&& final(self)@ == old(self)@.insert(
                            key@,
                            ValModel::List(seq![value@] + l),
                        )
                        &&& r matches Ok(n) && n == l.len() + 1
                    } else {
                        final(self)@ == old(self)@ && (r matches Err(e) && e is StoreOperation)
                    }
                },
                None => final(self)@ == old(self)@ && (r matches Err(e) && e is StoreOperation),
            },
    {
        let nv: Vec<String> = match self.lookup(key) {
            None => {
                let mut v: Vec<String> = Vec::new();
                v.push(value);
                proof {
                    assert(views(v@) =~= seq![v@[0]@] + Seq::<Seq<char>>::empty());
                }
                v
            },
            Some(Value::List(l)) => {
                if l.len() >= i32::MAX as usize {
                    return Err(KvError::StoreOperation(String::from_str(
                        "list is at its size bound",
                    )));
                }
                let mut v = clone_strings(l);
                v.insert(0, value);
                proof {
                    assert(views(v@) =~= seq![v@[0]@] + views(v@.drop_first()));
                }
                v
            },
            Some(_) => {
                return Err(KvError::StoreOperation(String::from_str(
                    "value at key is not a list",
                )));
            },
        };
        let n = nv.len();
        proof {
            match Store::list_at(old(self)@, key@) {
                Some(l) => {
                    assert(views(nv@) =~= seq![value@] + l);
                },
                None => {},
            }
        }
        self.insert_entry(key, Value::List(nv));
        Ok(n as i32)
    }

    /// The elements within an inclusive index range of the list at the key,
    /// a negative index counting from the end.
    pub fn list_range(&self, key: &str, start: i32, stop: i32) -> (r: Result<Vec<String>, KvError>)
        requires
            self.wf(),
        ensures
            match Store::list_at(self@, key@) {
                Some(l) => r matches Ok(v) && views(v@) == Store::range_of(
                    l,
                    start as int,
                    stop as int,
                ),
                None => (r matches Err(e) && e is StoreOperation),
            },
    {
        let l: &Vec<String> = match self.lookup(key) {
            None => {
                let v: Vec<String> = Vec::new();
                proof {
                    assert(views(v@) =~= Store::range_of(
                        Seq::empty(),
                        start as int,
                        stop as int,
                    ));
                }
                return Ok(v);
            },
            Some(Value::List(l)) => l,
            Some(_) => {
                return Err(KvError::StoreOperation(String::from_str(
                    "value at key is not a list",
                )));
            },
        };
        let ghost lv = views(l@);
        let n = l.len();
        let ni: i128 = n as i128;
        let s0: i128 = if start < 0 {
            start as i128 + ni
        } else {
            start as i128
        };
        let e0: i128 = if stop < 0 {
            stop as i128 + ni
        } else {
            stop as i128
        };
        let s1: i128 = if s0 < 0 {
            0
        } else {
            s0
        };
        let e1: i128 = if e0 >= ni {
            ni - 1
        } else {
            e0
        };
        if s1 >= ni || s1 > e1 {
            let v: Vec<String> = Vec::new();
            proof {
                assert(views(v@) =~= Store::range_of(lv, start as int, stop as int));
            }
            return Ok(v);
        }
        let su = s1 as usize;
        let eu = e1 as usize;
        let mut acc: Vec<String> = Vec::new();
        let mut j: usize = su;
        while j <= eu
            invariant
                su <= j <= eu + 1,
                eu < n,
                n == l@.len(),
                lv == views(l@),
                views(acc@) == lv.subrange(su as int, j as int),
            decreases eu + 1 - j,
        {
            let ghost prev = views(acc@);
            acc.push(l[j].clone());
            proof {
                assert(views(acc@) =~= prev.push(l@[j as int]@));
                assert(lv.subrange(su as int, j + 1).drop_last() =~= lv.subrange(
                    su as int,
                    j as int,
                ));
                assert(views(acc@) =~= lv.subrange(su as int, j + 1));
            }
            j = j + 1;
        }
        proof {
            assert(views(acc@) =~= Store::range_of(lv, start as int, stop as int));
        }
        Ok(acc)
    }

    /// Deletes every occurrence of the value from the list at the key and
    /// reports how many elements left; a list emptied this way is removed.
    pub fn list_del_item(&mut self, key: &str, value: &str) -> (r: Result<i32, KvError>)
        requires
            old(self).wf(),
        ensures
            final(self).wf(),
            match Store::list_at(old(self)@, key@) {
                Some(l) => {
                    let kept = seq_remove_all(l, value@);
                    if l.len() - kept.len() <= i32::MAX {
                        &&& r matches Ok(n) && n == l.len() - kept.len()
                        &&& final(self)@ == (if kept.len() == 0 {
                            old(self)@.remove(key@)
                        } else {
                            old(self)@.insert(key@, ValModel::List(kept))
                        })
                    } else {
                        final(self)@ == old(self)@ && (r matches Err(e) && e is StoreOperation)
                    }
                },
                None => final(self)@ == old(self)@ && (r matches Err(e) && e is StoreOperation),
            },
    {
        let l: &Vec<String> = match self.lookup(key) {
            None => {
                proof {
                    assert(seq_remove_all(Seq::<Seq<char>>::empty(), value@) =~= Seq::<
                        Seq<char>,
                    >::empty());
                    assert(old(self)@.remove(key@) =~= old(self)@);
                }
                return Ok(0);
            },
            Some(Value::List(l)) => l,
            Some(_) => {
                return Err(KvError::StoreOperation(String::from_str(
                    "value at key is not a list",
                )));
            },
        };
        let nv = remove_all_exec(l, value);
        let removed = l.len() - nv.len();
        if removed > i32::MAX as usize {
            return Err(KvError::StoreOperation(String::from_str(
                "removal count does not fit the reply range",
            )));
        }
        if nv.is_empty() {
            self.remove_entry(key);
        } else {
            self.insert_entry(key, Value::List(nv));
        }
        Ok(removed as i32)
    }

    /// Adds the value to the set at the key and reports the member count
    /// after the mutation, as the operation policy defines the reply; the
    /// live dispatch path hands on the store client's added-count instead.
    /// Adding a member that is already present leaves the set as it was.
    pub fn set_add(&mut self, key: &str, value: String) -> (r: Result<i32, KvError>)
        requires
            old(self).wf(),
        ensures
            final(self).wf(),
            match Store::set_at(old(self)@, key@) {
                Some(s) => {
                    if s.insert(value@).len() <= i32::MAX {
                        &&& r matches Ok(n) && n == s.insert(value@).len()
                        &&& final(self)@ == old(self)@.insert(
                            key@,
                            ValModel::SetV(s.insert(value@)),
                        )
                    } else {
                        final(self)@ == old(self)@ && (r matches Err(e) && e is StoreOperation)
                    }
                },
                None => final(self)@ == old(self)@ && (r matches Err(e) && e is StoreOperation),
            },
    {
        let (nv, count): (Vec<String>, usize) = match self.lookup(key) {
            None => {
                let mut v: Vec<String> = Vec::new();
                v.push(value);
                proof {
                    let ghost s = Set::<Seq<char>>::empty();
                    assert(views(v@) =~= Seq::<Seq<char>>::empty().push(v@[0]@));
                    assert(views(v@).to_set() =~= s.insert(v@[0]@));
                    views(v@).unique_seq_to_set();
                }
                (v, 1)
            },
            Some(Value::SetVal(m)) => {
                proof {
                    views(m@).unique_seq_to_set();
                }
                if contains_str(m, value.as_str()) {
                    if m.len() > i32::MAX as usize {
                        return Err(KvError::StoreOperation(String::from_str(
                            "set is beyond the reply range",
                        )));
                    }
                    let ghost s = views(m@).to_set();
                    proof {
                        assert(s.insert(value@) =~= s);
                        assert(old(self)@.insert(key@, ValModel::SetV(s)) =~= old(self)@);
                    }
                    return Ok(m.len() as i32);
                }
                if m.len() >= i32::MAX as usize {
                    return Err(KvError::StoreOperation(String::from_str(
                        "set is at its size bound",
                    )));
                }
                let ghost s = views(m@).to_set();
                let mut v = clone_strings(m);
                let ghost prev = views(v@);
                v.push(value);
                let c = v.len();
                proof {
                    assert(views(v@) =~= prev.push(value@));
                    assert(views(v@).to_set() =~= s.insert(value@));
                    lemma_no_dup_push(prev, value@);
                    views(v@).unique_seq_to_set();
                }
                (v, c)
            },
            Some(_) => {
                return Err(KvError::StoreOperation(String::from_str(
                    "value at key is not a set",
                )));
            },
        };
        self.insert_entry(key, Value::SetVal(nv));
        Ok(count as i32)
    }

    /// Removes the value from the set at the key and reports the member
    /// count after the mutation, as the operation policy defines the reply;
    /// the live dispatch path hands on the store client's removed-count
    /// instead. A set emptied this way is removed.
    pub fn set_remove(&mut self, key: &str, value: &str) -> (r: Result<i32, KvError>)
        requires
            old(self).wf(),
        ensures
            final(self).wf(),
            match Store::set_at(old(self)@, key@) {
                Some(s) => {
                    if s.remove(value@).len() <= i32::MAX {
                        &&& r matches Ok(n) && n == s.remove(value@).len()
                        &&& final(self)@ == (if s.remove(value@).len() == 0 {
                            old(self)@.remove(key@)
                        } else {
                            old(self)@.insert(key@, ValModel::SetV(s.remove(value@)))
                        })
                    } else {
                        final(self)@ == old(self)@ && (r matches Err(e) && e is StoreOperation)
                    }
                },
                None => final(self)@ == old(self)@ && (r matches Err(e) && e is StoreOperation),
            },
    {
        let m: &Vec<String> = match self.lookup(key) {
            None => {
                proof {
                    let ghost s = Set::<Seq<char>>::empty();
                    assert(s.remove(value@) =~= s);
                    assert(old(self)@.remove(key@) =~= old(self)@);
                }
                return Ok(0);
            },
            Some(Value::SetVal(m)) => m,
            Some(_) => {
                return Err(KvError::StoreOperation(String::from_str(
                    "value at key is not a set",
                )));
            },
        };
        let ghost s = views(m@).to_set();
        let nv = remove_all_exec(m, value);
        proof {
            lemma_remove_all_props(views(m@), value@);
            assert(views(nv@).to_set() =~= s.remove(value@));
            views(nv@).unique_seq_to_set();
        }
        if nv.len() > i32::MAX as usize {
            return Err(KvError::StoreOperation(String::from_str(
                "set is beyond the reply range",
            )));
        }
        let c = nv.len();
        if nv.is_empty() {
            self.remove_entry(key);
        } else {
            self.insert_entry(key, Value::SetVal(nv));
        }
        Ok(c as i32)
    }

    /// All members of the set at the key.
    pub fn set_query(&self, key: &str) -> (r: Result<Vec<String>, KvError>)
        requires
            self.wf(),
        ensures
            match Store::set_at(self@, key@) {
                Some(s) => (r matches Ok(v) && views(v@).no_duplicates() && views(v@).to_set()
                    == s),
                None => (r matches Err(e) && e is StoreOperation),
            },
    {
        match self.lookup(key) {
            None => {
                let v: Vec<String> = Vec::new();
                proof {
                    assert(views(v@) =~= Seq::<Seq<char>>::empty());
                    assert(views(v@).to_set() =~= Set::<Seq<char>>::empty());
                }
                Ok(v)
            },
            Some(Value::SetVal(m)) => Ok(clone_strings(m)),
            Some(_) => Err(KvError::StoreOperation(String::from_str(
                "value at key is not a set",
            ))),
        }
    }

    /// The union of the sets named by the keys, each member reported once.
    pub fn set_union(&self, keys: &Vec<String>) -> (r: Result<Vec<String>, KvError>)
        requires
            self.wf(),
        ensures
            match Store::union_at(self@, views(keys@)) {
                Some(u) => (r matches Ok(v) && views(v@).no_duplicates() && views(v@).to_set()
                    == u),
                None => (r matches Err(e) && e is StoreOperation),
            },
    {
        let mut acc: Vec<String> = Vec::new();
        let kn = keys.len();
        let mut i: usize = 0;
        proof {
            assert(views(keys@).take(0) =~= Seq::<Seq<char>>::empty());
            assert(views(acc@) =~= Seq::<Seq<char>>::empty());
            assert(views(acc@).to_set() =~= Set::<Seq<char>>::empty());
        }
        while i < kn
            invariant
                i <= kn,
                kn == keys@.len(),
                self.wf(),
                Store::union_at(self@, views(keys@).take(i as int)) matches Some(u) && views(
                    acc@,
                ).no_duplicates() && views(acc@).to_set() == u,
            decreases kn - i,
        {
            let ghost pre = views(keys@).take(i as int);
            let ghost u_prev = views(acc@).to_set();
            proof {
                assert(views(keys@).take(i + 1).drop_last() =~= pre);
                assert(views(keys@).take(i + 1).last() == keys@[i as int]@);
            }
            match self.lookup(keys[i].as_str()) {
                None => {
                    proof {
                        assert(u_prev.union(Set::<Seq<char>>::empty()) =~= u_prev);
                    }
                },
                Some(Value::SetVal(m)) => {
                    let mn = m.len();
                    let mut j: usize = 0;
                    proof {
                        assert(views(m@).take(0) =~= Seq::<Seq<char>>::empty());
                        assert(u_prev.union(views(m@).take(0).to_set()) =~= u_prev);
                    }
                    while j < mn
                        invariant
                            j <= mn,
                            mn == m@.len(),
                            views(acc@).no_duplicates(),
                            views(acc@).to_set() == u_prev.union(views(m@).take(j as int).to_set()),
                        decreases mn - j,
                    {
                        proof {
                            assert(views(m@).take(j + 1) =~= views(m@).take(j as int).push(
                                m@[j as int]@,
                            ));
                            assert(views(m@).take(j + 1).to_set() =~= views(m@).take(
                                j as int,
                            ).to_set().insert(m@[j as int]@));
                        }
                        if !contains_str(&acc, m[j].as_str()) {
                            let ghost prev = views(acc@);
                            acc.push(m[j].clone());
                            proof {
                                assert(views(acc@) =~= prev.push(m@[j as int]@));
                                lemma_no_dup_push(prev, m@[j as int]@);
                                assert(views(acc@).to_set() =~= prev.to_set().insert(
                                    m@[j as int]@,
                                ));
                                assert(views(acc@).to_set() =~= u_prev.union(views(m@).take(
                                    j + 1,
                                ).to_set()));
                            }
                        } else {
                            proof {
                                assert(views(acc@).to_set() =~= u_prev.union(views(m@).take(
                                    j + 1,
                                ).to_set()));
                            }
                        }
                        j = j + 1;
                    }
                    proof {
                        assert(views(m@).take(mn as int) =~= views(m@));
                    }
                },
                Some(_) => {
                    proof {
                        lemma_union_at_none(self@, views(keys@), i as int);
                    }
                    return Err(KvError::StoreOperation(String::from_str(
                        "value at key is not a set",
                    )));
                },
            }
            i = i + 1;
        }
        proof {
            assert(views(keys@).take(kn as int) =~= views(keys@));
        }
        Ok(acc)
    }

    /// The intersection of the sets named by the keys; at least one key is
    /// needed.
    pub fn set_intersect(&self, keys: &Vec<String>) -> (r: Result<Vec<String>, KvError>)
        requires
            self.wf(),
        ensures
            match Store::inter_at(self@, views(keys@)) {
                Some(u) => (r matches Ok(v) && views(v@).no_duplicates() && views(v@).to_set()
                    == u),
                None => (r matches Err(e) && e is StoreOperation),
            },
    {
        let kn = keys.len();
        if kn == 0 {
            return Err(KvError::StoreOperation(String::from_str(
                "intersection needs at least one key",
            )));
        }
        let mut acc: Vec<String> = match self.lookup(keys[0].as_str()) {
            None => {
                let v: Vec<String> = Vec::new();
                proof {
                    assert(views(v@) =~= Seq::<Seq<char>>::empty());
                    assert(views(v@).to_set() =~= Set::<Seq<char>>::empty());
                }
                v
            },
            Some(Value::SetVal(m)) => clone_strings(m),
            Some(_) => {
                proof {
                    lemma_inter_at_none(self@, views(keys@), 0);
                }
                return Err(KvError::StoreOperation(String::from_str(
                    "value at key is not a set",
                )));
            },
        };
        proof {
            assert(views(keys@).take(1)[0] == keys@[0]@);
            assert(views(keys@).take(1).len() == 1);
        }
        let mut i: usize = 1;
        while i < kn
            invariant
                1 <= i <= kn,
                kn == keys@.len(),
                self.wf(),
                Store::inter_at(self@, views(keys@).take(i as int)) matches Some(u) && views(
                    acc@,
                ).no_duplicates() && views(acc@).to_set() == u,
            decreases kn - i,
        {
            let ghost u_prev = views(acc@).to_set();
            proof {
                assert(views(keys@).take(i + 1).drop_last() =~= views(keys@).take(i as int));
                assert(views(keys@).take(i + 1).last() == keys@[i as int]@);
                assert(views(keys@).take(i + 1).len() == i + 1);
            }
            match self.lookup(keys[i].as_str()) {
                None => {
                    let v: Vec<String> = Vec::new();
                    acc = v;
                    proof {
                        assert(views(acc@) =~= Seq::<Seq<char>>::empty());
                        assert(views(acc@).to_set() =~= u_prev.intersect(
                            Set::<Seq<char>>::empty(),
                        ));
                    }
                },
                Some(Value::SetVal(m)) => {
                    let nv = retain_exec(&acc, m);
                    proof {
                        lemma_retain_props(views(acc@), views(m@).to_set());
                        assert(views(nv@).to_set() =~= u_prev.intersect(views(m@).to_set()));
                    }
                    acc = nv;
                },
                Some(_) => {
                    proof {
                        lemma_inter_at_none(self@, views(keys@), i as int);
                    }
                    return Err(KvError::StoreOperation(String::from_str(
                        "value at key is not a set",
                    )));
                },
            }
            i = i + 1;
        }
        proof {
            assert(views(keys@).take(kn as int) =~= views(keys@));
        }
        Ok(acc)
    }
}

proof fn lemma_union_at_none(m: Map<Seq<char>, ValModel>, keys: Seq<Seq<char>>, i: int)
    requires
        0 <= i < keys.len(),
        Store::set_at(m, keys[i]) is None,
    ensures
        Store::union_at(m, keys) is None,
    decreases keys.len(),
{
    if i < keys.len() - 1 {
        assert(keys.drop_last()[i] == keys[i]);
        lemma_union_at_none(m, keys.drop_last(), i);
    }
}

proof fn lemma_inter_at_none(m: Map<Seq<char>, ValModel>, keys: Seq<Seq<char>>, i: int)
    requires
        0 <= i < keys.len(),
        Store::set_at(m, keys[i]) is None,
    ensures
        Store::inter_at(m, keys) is None,
    decreases keys.len(),
{
    if keys.len() > 1 && i < keys.len() - 1 {
        assert(keys.drop_last()[i] == keys[i]);
        lemma_inter_at_none(m, keys.drop_last(), i);
    }
}

} // verus!
