use vstd::prelude::*;
use crate::engine::{
    contents, eng_clear, eng_contains, eng_first, eng_flush, eng_get, eng_insert, eng_last,
    eng_len, eng_open, eng_pairs, eng_remove,
};
use crate::order::{
    empty_contents, is_empty_map, is_max_key, is_min_key, keys_represent, lex_lt, lookup,
    pairs_represent, strings_ascending, values_represent,
};
use crate::StoreError;

verus! {

/// One entry of the store: a single-key mapping of key text to value text.
/// Enumerating the whole store yields one such mapping per entry rather
/// than one many-entry mapping; a single ordered mapping of all keys to
/// values would be the more natural shape, but this one is the contract.
#[derive(Debug)]
pub struct Entry {
    pub key: String,
    pub value: String,
}

/// The keys of consecutive entries are strictly ascending.
pub open spec fn entries_ascending(es: Seq<Entry>) -> bool {
    forall|i: int, j: int|
        0 <= i < j < es.len() ==> lex_lt(#[trigger] es[i].key@, #[trigger] es[j].key@)
}

/// `es` lists exactly the entries of `m`, in ascending key order.
pub open spec fn entries_represent(es: Seq<Entry>, m: Map<Seq<char>, Seq<char>>) -> bool {
    &&& entries_ascending(es)
    &&& es.len() == m.dom().len()
    &&& forall|i: int|
        0 <= i < es.len() ==> m.dom().contains(#[trigger] es[i].key@) && m[es[i].key@]
            == es[i].value@
    &&& forall|k: Seq<char>|
        #[trigger] m.dom().contains(k) ==> exists|i: int| 0 <= i < es.len() && es[i].key@ == k
}

/// A transient handle onto the store, scoped to exactly one operation.
/// Its view is the map of entries the engine holds behind it. A session
/// is opened, used for one logical action, then closed; closing flushes
/// so that no completed write is silently lost.
pub struct Session {
    db: sled::Db,
}

impl View for Session {
    type V = Map<Seq<char>, Seq<char>>;

    closed spec fn view(&self) -> Map<Seq<char>, Seq<char>> {
        contents(self.db)
    }
}

impl Session {
    /// Acquires a fresh handle onto the store at `name`, creating the
    /// store if absent. Fails when the location cannot be opened, for
    /// instance because a live session elsewhere holds its lock.
    pub fn open(name: &str) -> (r: Result<Session, StoreError>)
        ensures
            r matches Ok(s) ==> s@.dom().finite(),
    {
        match eng_open(name) {
            Ok(db) => Ok(Session { db }),
            Err(e) => Err(e),
        }
    }

    /// Writes `value` under `key`, overwriting silently, and echoes the
    /// written value (not the previous one).
    pub fn set(&mut self, key: &str, value: &str) -> (r: Result<String, StoreError>)
        ensures
            r matches Ok(v) ==> final(self)@ == old(self)@.insert(key@, value@) && v@ == value@,
    {
        match eng_insert(&mut self.db, key, value) {
            Ok(_) => Ok(String::from_str(value)),
            Err(e) => Err(e),
        }
    }

    /// Returns the value stored under `key`, or the empty sentinel when
    /// the key is absent. A stored empty value and an absent key are
    /// deliberately indistinguishable here; `has` tells them apart.
    pub fn get(&self, key: &str) -> (r: Result<String, StoreError>)
        ensures
            r matches Ok(v) ==> v@ == lookup(self@, key@),
    {
        match eng_get(&self.db, key) {
            Ok(Some(v)) => Ok(v),
            Ok(None) => Ok(String::new()),
            Err(e) => Err(e),
        }
    }

    /// Whether an entry exists under `key`.
    pub fn has(&self, key: &str) -> (r: Result<bool, StoreError>)
        ensures
            r matches Ok(b) ==> b == self@.dom().contains(key@),
    {
        eng_contains(&self.db, key)
    }

    /// Deletes the entry under `key`; an absent key is a no-op, not an
    /// error, so deleting twice in a row equals deleting once.
    pub fn remove(&mut self, key: &str) -> (r: Result<(), StoreError>)
        ensures
            r is Ok ==> final(self)@ == old(self)@.remove(key@),
    {
        eng_remove(&mut self.db, key)
    }

    /// Removes every entry. The store itself remains, empty.
    pub fn clear(&mut self) -> (r: Result<(), StoreError>)
        ensures
            r is Ok ==> final(self)@ == empty_contents(),
    {
        eng_clear(&mut self.db)
    }

    /// The number of entries currently in the store.
    pub fn size(&self) -> (r: usize)
        ensures
            r == self@.dom().len(),
    {
        eng_len(&self.db)
    }

    /// The value under the smallest key, or the empty sentinel when the
    /// store is empty.
    pub fn first(&self) -> (r: Result<String, StoreError>)
        ensures
            r matches Ok(v) ==> ({
                &&& is_empty_map(self@) ==> v@ == Seq::<char>::empty()
                &&& !is_empty_map(self@) ==> exists|k: Seq<char>|
                    is_min_key(self@, k) && self@[k] == v@
            }),
    {
        match eng_first(&self.db) {
            Ok(Some(p)) => Ok(p.1),
            Ok(None) => Ok(String::new()),
            Err(e) => Err(e),
        }
    }

    /// The value under the largest key, or the empty sentinel when the
    /// store is empty.
    pub fn last(&self) -> (r: Result<String, StoreError>)
        ensures
            r matches Ok(v) ==> ({
                &&& is_empty_map(self@) ==> v@ == Seq::<char>::empty()
                &&& !is_empty_map(self@) ==> exists|k: Seq<char>|
                    is_max_key(self@, k) && self@[k] == v@
            }),
    {
        match eng_last(&self.db) {
            Ok(Some(p)) => Ok(p.1),
            Ok(None) => Ok(String::new()),
            Err(e) => Err(e),
        }
    }

    /// Every key, in ascending order.
    pub fn keys(&self) -> (r: Result<Vec<String>, StoreError>)
        ensures
            r matches Ok(ks) ==> keys_represent(ks@, self@),
    {
        let ps = match eng_pairs(&self.db) {
            Ok(ps) => ps,
            Err(e) => return Err(e),
        };
        let mut out: Vec<String> = Vec::new();
        let mut i: usize = 0;
        while i < ps.len()
            invariant
                i <= ps.len(),
                pairs_represent(ps@, self@),
                out@.len() == i as int,
                forall|j: int| 0 <= j < i ==> #[trigger] out@[j]@ == ps@[j].0@,
            decreases ps.len() - i,
        {
            let p = &ps[i];
            out.push(p.0.clone());
            i += 1;
        }
        proof {
            assert forall|k: Seq<char>| self@.dom().contains(k) implies exists|j: int|
                0 <= j < out@.len() && out@[j]@ == k by {
                let j = choose|j: int| 0 <= j < ps@.len() && ps@[j].0@ == k;
                assert(out@[j]@ == k);
            }
        }
        Ok(out)
    }

    /// Every value, in ascending order of its key.
    pub fn values(&self) -> (r: Result<Vec<String>, StoreError>)
        ensures
            r matches Ok(vs) ==> values_represent(vs@, self@),
    {
        let ps = match eng_pairs(&self.db) {
            Ok(ps) => ps,
            Err(e) => return Err(e),
        };
        let mut out: Vec<String> = Vec::new();
        let mut i: usize = 0;
        while i < ps.len()
            invariant
                i <= ps.len(),
                pairs_represent(ps@, self@),
                out@.len() == i as int,
                forall|j: int| 0 <= j < i ==> #[trigger] out@[j]@ == ps@[j].1@,
            decreases ps.len() - i,
        {
            let p = &ps[i];
            out.push(p.1.clone());
            i += 1;
        }
        Ok(out)
    }

    /// Every entry as a single-key mapping, in ascending key order.
    pub fn all(&self) -> (r: Result<Vec<Entry>, StoreError>)
        ensures
            r matches Ok(es) ==> entries_represent(es@, self@),
    {
        let ps = match eng_pairs(&self.db) {
            Ok(ps) => ps,
            Err(e) => return Err(e),
        };
        let mut out: Vec<Entry> = Vec::new();
        let mut i: usize = 0;
        while i < ps.len()
            invariant
                i <= ps.len(),
                pairs_represent(ps@, self@),
                out@.len() == i as int,
                forall|j: int|
                    0 <= j < i ==> #[trigger] out@[j].key@ == ps@[j].0@ && out@[j].value@
                        == ps@[j].1@,
            decreases ps.len() - i,
        {
            let p = &ps[i];
            out.push(Entry { key: p.0.clone(), value: p.1.clone() });
            i += 1;
        }
        proof {
            assert forall|k: Seq<char>| self@.dom().contains(k) implies exists|j: int|
                0 <= j < out@.len() && out@[j].key@ == k by {
                let j = choose|j: int| 0 <= j < ps@.len() && ps@[j].0@ == k;
                assert(out@[j].key@ == k);
            }
        }
        Ok(out)
    }

    /// Releases the session: flushes so that every completed write of
    /// this session is durable before the handle is dropped. The flush
    /// is attempted on every exit path of an operation, even after a
    /// failed action, and its failure is a failure of the whole call.
    pub fn close(self) -> (r: Result<(), StoreError>) {
        eng_flush(&self.db)
    }
}

/// The full durable keyspace, identified by its resolved on-disk name.
/// Every operation independently acquires a fresh session, performs one
/// logical action, flushes, and releases the handle; no handle is cached
/// across calls. Two overlapping operations therefore race to open the
/// store, and the engine's lock makes the loser fail with `StoreOpen`
/// rather than ever losing a completed write. The exact behaviour of
/// each action against given contents is stated on `Session`.
pub struct Store {
    /// The resolved filesystem identity of the store.
    pub name: String,
}

impl Store {
    /// A store at the given resolved name. Nothing is opened yet; each
    /// operation opens its own session.
    pub fn new(name: String) -> (s: Store)
        ensures
            s.name@ == name@,
    {
        Store { name }
    }

    /// Writes the entry, flushes, and echoes the written value.
    pub fn set(&self, key: &str, value: &str) -> (r: Result<String, StoreError>)
        ensures
            r matches Ok(v) ==> v@ == value@,
    {
        let mut s = match Session::open(self.name.as_str()) {
            Ok(s) => s,
            Err(e) => return Err(e),
        };
        let act = s.set(key, value);
        let fin = s.close();
        match act {
            Err(e) => Err(e),
            Ok(v) => match fin {
                Err(e) => Err(e),
                Ok(_) => Ok(v),
            },
        }
    }

    /// Reads the value under `key`, or the empty sentinel when absent;
    /// flushes before returning, as every operation does.
    pub fn get(&self, key: &str) -> (r: Result<String, StoreError>) {
        let s = match Session::open(self.name.as_str()) {
            Ok(s) => s,
            Err(e) => return Err(e),
        };
        let act = s.get(key);
        let fin = s.close();
        match act {
            Err(e) => Err(e),
            Ok(v) => match fin {
                Err(e) => Err(e),
                Ok(_) => Ok(v),
            },
        }
    }

    /// Whether an entry exists under `key`.
    pub fn has(&self, key: &str) -> (r: Result<bool, StoreError>) {
        let s = match Session::open(self.name.as_str()) {
            Ok(s) => s,
            Err(e) => return Err(e),
        };
        let act = s.has(key);
        let fin = s.close();
        match act {
            Err(e) => Err(e),
            Ok(b) => match fin {
                Err(e) => Err(e),
                Ok(_) => Ok(b),
            },
        }
    }

    /// Deletes the entry under `key`; an absent key is a no-op.
    pub fn remove(&self, key: &str) -> (r: Result<(), StoreError>) {
        let mut s = match Session::open(self.name.as_str()) {
            Ok(s) => s,
            Err(e) => return Err(e),
        };
        let act = s.remove(key);
        let fin = s.close();
        match act {
            Err(e) => Err(e),
            Ok(_) => fin,
        }
    }

    /// Removes every entry, then flushes. Irreversible; the store's
    /// location itself remains.
    pub fn clear(&self) -> (r: Result<(), StoreError>) {
        let mut s = match Session::open(self.name.as_str()) {
            Ok(s) => s,
            Err(e) => return Err(e),
        };
        let act = s.clear();
        let fin = s.close();
        match act {
            Err(e) => Err(e),
            Ok(_) => fin,
        }
    }

    /// The number of entries currently in the store.
    pub fn size(&self) -> (r: Result<usize, StoreError>) {
        let s = match Session::open(self.name.as_str()) {
            Ok(s) => s,
            Err(e) => return Err(e),
        };
        let n = s.size();
        match s.close() {
            Err(e) => Err(e),
            Ok(_) => Ok(n),
        }
    }

    /// The value under the smallest key, or the empty sentinel on an
    /// empty store.
    pub fn first(&self) -> (r: Result<String, StoreError>) {
        let s = match Session::open(self.name.as_str()) {
            Ok(s) => s,
            Err(e) => return Err(e),
        };
        let act = s.first();
        let fin = s.close();
        match act {
            Err(e) => Err(e),
            Ok(v) => match fin {
                Err(e) => Err(e),
                Ok(_) => Ok(v),
            },
        }
    }

    /// The value under the largest key, or the empty sentinel on an
    /// empty store.
    pub fn last(&self) -> (r: Result<String, StoreError>) {
        let s = match Session::open(self.name.as_str()) {
            Ok(s) => s,
            Err(e) => return Err(e),
        };
        let act = s.last();
        let fin = s.close();
        match act {
            Err(e) => Err(e),
            Ok(v) => match fin {
                Err(e) => Err(e),
                Ok(_) => Ok(v),
            },
        }
    }

    /// Every key, in ascending order, as one materialized snapshot.
    pub fn keys(&self) -> (r: Result<Vec<String>, StoreError>)
        ensures
            r matches Ok(ks) ==> strings_ascending(ks@),
    {
        let s = match Session::open(self.name.as_str()) {
            Ok(s) => s,
            Err(e) => return Err(e),
        };
        let act = s.keys();
        let fin = s.close();
        match act {
            Err(e) => Err(e),
            Ok(ks) => match fin {
                Err(e) => Err(e),
                Ok(_) => Ok(ks),
            },
        }
    }

    /// Every value, in ascending order of its key, as one materialized
    /// snapshot.
    pub fn values(&self) -> (r: Result<Vec<String>, StoreError>) {
        let s = match Session::open(self.name.as_str()) {
            Ok(s) => s,
            Err(e) => return Err(e),
        };
        let act = s.values();
        let fin = s.close();
        match act {
            Err(e) => Err(e),
            Ok(vs) => match fin {
                Err(e) => Err(e),
                Ok(_) => Ok(vs),
            },
        }
    }

    /// Every entry as a single-key mapping, in ascending key order, as
    /// one materialized snapshot.
    pub fn all(&self) -> (r: Result<Vec<Entry>, StoreError>)
        ensures
            r matches Ok(es) ==> entries_ascending(es@),
    {
        let s = match Session::open(self.name.as_str()) {
            Ok(s) => s,
            Err(e) => return Err(e),
        };
        let act = s.all();
        let fin = s.close();
        match act {
            Err(e) => Err(e),
            Ok(es) => match fin {
                Err(e) => Err(e),
                Ok(_) => Ok(es),
            },
        }
    }
}

} // verus!
