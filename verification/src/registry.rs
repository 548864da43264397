//! The connection registry: a mapping from actor identity to that actor's
//! store client handle. Lookups take the registry by shared reference and
//! registration takes it exclusively, so readers never observe a torn map.

use vstd::prelude::*;
use crate::error::KvError;
use crate::redisio::client_connection;

verus! {

/// No actor appears twice among the entries.
pub open spec fn unique_actors(s: Seq<(String, redis::Client)>) -> bool {
    forall|i: int, j: int|
        0 <= i < j < s.len() ==> (#[trigger] s[i]).0@ != (#[trigger] s[j]).0@
}

/// The map described by a sequence of registry entries.
pub closed spec fn actors_map(s: Seq<(String, redis::Client)>) -> Map<Seq<char>, redis::Client>
    decreases s.len(),
{
    if s.len() == 0 {
        Map::empty()
    } else {
        actors_map(s.drop_last()).insert(s.last().0@, s.last().1)
    }
}

proof fn lemma_actors_index(s: Seq<(String, redis::Client)>, i: int)
    requires
        unique_actors(s),
        0 <= i < s.len(),
    ensures
        actors_map(s).contains_key(s[i].0@),
        actors_map(s)[s[i].0@] == s[i].1,
    decreases s.len(),
{
    if i == s.len() - 1 {
    } else {
        assert(unique_actors(s.drop_last()));
        assert(s.drop_last()[i] == s[i]);
        lemma_actors_index(s.drop_last(), i);
        assert(s[i].0@ != s.last().0@);
    }
}

proof fn lemma_actors_domain(s: Seq<(String, redis::Client)>, k: Seq<char>)
    ensures
        actors_map(s).contains_key(k) <==> exists|i: int|
            0 <= i < s.len() && (#[trigger] s[i]).0@ == k,
    decreases s.len(),
{
    if s.len() > 0 {
        lemma_actors_domain(s.drop_last(), k);
        if s.last().0@ == k {
            assert((s[s.len() - 1]).0@ == k);
        } else {
            let d = s.drop_last();
            if actors_map(s).contains_key(k) {
                let i = choose|i: int| 0 <= i < d.len() && (#[trigger] d[i]).0@ == k;
                assert((s[i]).0@ == k);
            }
            if exists|i: int| 0 <= i < s.len() && (#[trigger] s[i]).0@ == k {
                let i = choose|i: int| 0 <= i < s.len() && (#[trigger] s[i]).0@ == k;
                assert(i < s.len() - 1);
                assert((s.drop_last()[i]).0@ == k);
            }
        }
    }
}

proof fn lemma_actors_remove(s: Seq<(String, redis::Client)>, i: int)
    requires
        unique_actors(s),
        0 <= i < s.len(),
    ensures
        unique_actors(s.remove(i)),
        actors_map(s.remove(i)) == actors_map(s).remove(s[i].0@),
    decreases s.len(),
{
    let k = s[i].0@;
    if i == s.len() - 1 {
        assert(s.remove(i) =~= s.drop_last());
        lemma_actors_domain(s.drop_last(), k);
        assert(!actors_map(s.drop_last()).contains_key(k));
        assert(actors_map(s.drop_last()) =~= actors_map(s.drop_last()).insert(k, s[i].1).remove(k));
    } else {
        let d = s.drop_last();
        assert(unique_actors(d));
        lemma_actors_remove(d, i);
        assert(s.remove(i).drop_last() =~= d.remove(i));
        assert(s.remove(i).last() == s.last());
        assert(actors_map(s.remove(i)) == actors_map(d.remove(i)).insert(s.last().0@, s.last().1));
        assert(k != s.last().0@);
        assert(actors_map(d).remove(k).insert(s.last().0@, s.last().1) =~= actors_map(d).insert(
            s.last().0@,
            s.last().1,
        ).remove(k));
        assert(unique_actors(s.remove(i))) by {
            assert(forall|a: int, b: int|
                0 <= a < b < s.remove(i).len() ==> (#[trigger] s.remove(i)[a]).0@ != (
                #[trigger] s.remove(i)[b]).0@) by {
                assert(forall|a: int|
                    0 <= a < s.remove(i).len() ==> #[trigger] s.remove(i)[a] == (if a < i {
                        s[a]
                    } else {
                        s[a + 1]
                    }));
            }
        }
    }
}

/// The registry. Exactly one client handle per actor; registration for an
/// actor replaces the handle wholesale, and entries are never evicted.
pub struct Registry {
    entries: Vec<(String, redis::Client)>,
}

impl View for Registry {
    type V = Map<Seq<char>, redis::Client>;

    closed spec fn view(&self) -> Map<Seq<char>, redis::Client> {
        actors_map(self.entries@)
    }
}

impl Registry {
    pub closed spec fn wf(&self) -> bool {
        unique_actors(self.entries@)
    }

    /// An empty registry.
    pub fn new() -> (r: Registry)
        ensures
            r.wf(),
            r@ == Map::<Seq<char>, redis::Client>::empty(),
    {
        Registry { entries: Vec::new() }
    }

    fn find_index(&self, actor: &str) -> (r: Option<usize>)
        requires
            self.wf(),
        ensures
            match r {
                Some(i) => i < self.entries@.len() && self.entries@[i as int].0@ == actor@,
                None => !self@.contains_key(actor@),
            },
    {
        let a = actor.to_owned();
        let n = self.entries.len();
        let mut j: usize = 0;
        while j < n
            invariant
                j <= n,
                n == self.entries@.len(),
                a@ == actor@,
                forall|jj: int| 0 <= jj < j ==> (#[trigger] self.entries@[jj]).0@ != actor@,
            decreases n - j,
        {
            if self.entries[j].0 == a {
                return Some(j);
            }
            j = j + 1;
        }
        proof {
            lemma_actors_domain(self.entries@, actor@);
        }
        None
    }

    /// Inserts or replaces the client handle for the actor.
    pub fn register(&mut self, actor: &str, client: redis::Client)
        requires
            old(self).wf(),
        ensures
            final(self).wf(),
            final(self)@ == old(self)@.insert(actor@, client),
    {
        match self.find_index(actor) {
            Some(i) => {
                proof {
                    lemma_actors_remove(self.entries@, i as int);
                }
                self.entries.remove(i);
            },
            None => {
                proof {
                    assert(old(self)@.remove(actor@) =~= old(self)@);
                }
            },
        }
        let ghost pre = self.entries@;
        proof {
            lemma_actors_domain(pre, actor@);
        }
        self.entries.push((actor.to_owned(), client));
        proof {
            assert(self.entries@.drop_last() =~= pre);
            assert(forall|a: int, b: int|
                0 <= a < b < self.entries@.len() ==> (#[trigger] self.entries@[a]).0@ != (
                #[trigger] self.entries@[b]).0@) by {
                assert(forall|a: int| 0 <= a < pre.len() ==> #[trigger] self.entries@[a] == pre[a]);
            }
            assert(old(self)@.remove(actor@).insert(actor@, client) =~= old(self)@.insert(
                actor@,
                client,
            ));
        }
    }

    /// The client handle registered for the actor; an unregistered actor is
    /// a configuration error, reported, never a crash.
    pub fn lookup(&self, actor: &str) -> (r: Result<&redis::Client, KvError>)
        requires
            self.wf(),
        ensures
            match r {
                Ok(c) => self@.contains_key(actor@) && *c == self@[actor@],
                Err(e) => !self@.contains_key(actor@) && e is Configuration,
            },
    {
        match self.find_index(actor) {
            Some(i) => {
                proof {
                    lemma_actors_index(self.entries@, i as int);
                }
                Ok(&self.entries[i].1)
            },
            None => Err(KvError::Configuration(<String as vstd::string::StringExecFns>::from_str(
                "actor is not configured",
            ))),
        }
    }

    /// A fresh store connection for the actor, produced by the actor's own
    /// registered client.
    pub fn resolve(&self, actor: &str) -> (r: Result<redis::Connection, KvError>)
        requires
            self.wf(),
        ensures
            r is Ok ==> self@.contains_key(actor@),
            !self@.contains_key(actor@) <==> (r matches Err(e) && e is Configuration),
            r matches Err(e) ==> e is Configuration || e is StoreOperation,
    {
        match self.lookup(actor) {
            Ok(c) => client_connection(c),
            Err(e) => Err(e),
        }
    }
}

} // verus!
