use vstd::prelude::*;

verus! {

/// Strict lexicographic order on character sequences, by code point.
/// For text stored as its byte encoding, the engine's byte order
/// coincides with this order.
pub open spec fn lex_lt(a: Seq<char>, b: Seq<char>) -> bool
    decreases a.len(),
{
    if b.len() == 0 {
        false
    } else if a.len() == 0 {
        true
    } else if a[0] != b[0] {
        (a[0] as u32) < (b[0] as u32)
    } else {
        lex_lt(a.skip(1), b.skip(1))
    }
}

/// The value stored under `k`, or the empty sentinel when `k` is absent.
/// A stored empty value and an absent key yield the same sentinel.
pub open spec fn lookup(m: Map<Seq<char>, Seq<char>>, k: Seq<char>) -> Seq<char> {
    if m.dom().contains(k) {
        m[k]
    } else {
        Seq::<char>::empty()
    }
}

/// The contents of a store that holds no entry.
pub open spec fn empty_contents() -> Map<Seq<char>, Seq<char>> {
    Map::empty()
}

/// The store holds no entry at all.
pub open spec fn is_empty_map(m: Map<Seq<char>, Seq<char>>) -> bool {
    forall|k: Seq<char>| !m.dom().contains(k)
}

/// `k` is present and no present key is strictly below it.
pub open spec fn is_min_key(m: Map<Seq<char>, Seq<char>>, k: Seq<char>) -> bool {
    &&& m.dom().contains(k)
    &&& forall|j: Seq<char>| m.dom().contains(j) ==> !lex_lt(j, k)
}

/// `k` is present and no present key is strictly above it.
pub open spec fn is_max_key(m: Map<Seq<char>, Seq<char>>, k: Seq<char>) -> bool {
    &&& m.dom().contains(k)
    &&& forall|j: Seq<char>| m.dom().contains(j) ==> !lex_lt(k, j)
}

/// The keys of consecutive pairs are strictly ascending.
pub open spec fn keys_ascending(ps: Seq<(String, String)>) -> bool {
    forall|i: int, j: int|
        0 <= i < j < ps.len() ==> lex_lt(#[trigger] ps[i].0@, #[trigger] ps[j].0@)
}

/// `ps` lists exactly the entries of `m`, in ascending key order.
pub open spec fn pairs_represent(ps: Seq<(String, String)>, m: Map<Seq<char>, Seq<char>>) -> bool {
    &&& keys_ascending(ps)
    &&& ps.len() == m.dom().len()
    &&& forall|i: int|
        0 <= i < ps.len() ==> m.dom().contains(#[trigger] ps[i].0@) && m[ps[i].0@] == ps[i].1@
    &&& forall|k: Seq<char>|
        #[trigger] m.dom().contains(k) ==> exists|i: int| 0 <= i < ps.len() && ps[i].0@ == k
}

/// A sequence of strings whose views are strictly ascending.
pub open spec fn strings_ascending(ks: Seq<String>) -> bool {
    forall|i: int, j: int| 0 <= i < j < ks.len() ==> lex_lt(#[trigger] ks[i]@, #[trigger] ks[j]@)
}

/// `ks` lists exactly the keys of `m`, in ascending order.
pub open spec fn keys_represent(ks: Seq<String>, m: Map<Seq<char>, Seq<char>>) -> bool {
    &&& strings_ascending(ks)
    &&& ks.len() == m.dom().len()
    &&& forall|i: int| 0 <= i < ks.len() ==> m.dom().contains(#[trigger] ks[i]@)
    &&& forall|k: Seq<char>|
        #[trigger] m.dom().contains(k) ==> exists|i: int| 0 <= i < ks.len() && ks[i]@ == k
}

/// `vs` lists exactly the values of `m`, in ascending order of their keys.
pub open spec fn values_represent(vs: Seq<String>, m: Map<Seq<char>, Seq<char>>) -> bool {
    exists|ps: Seq<(String, String)>|
        #[trigger] pairs_represent(ps, m) && vs.len() == ps.len() && forall|i: int|
            0 <= i < vs.len() ==> #[trigger] vs[i]@ == ps[i].1@
}

/// The order is irreflexive: no key is strictly below itself.
pub proof fn lemma_lex_irrefl(a: Seq<char>)
    ensures
        !lex_lt(a, a),
    decreases a.len(),
{
    if a.len() > 0 {
        lemma_lex_irrefl(a.skip(1));
    }
}

/// The order is transitive.
pub proof fn lemma_lex_trans(a: Seq<char>, b: Seq<char>, c: Seq<char>)
    requires
        lex_lt(a, b),
        lex_lt(b, c),
    ensures
        lex_lt(a, c),
    decreases a.len(),
{
    if a.len() == 0 || b.len() == 0 || c.len() == 0 {
        // lex_lt(a, b) forces b to be non-empty, lex_lt(b, c) forces c to be
        // non-empty, and an empty a is below any non-empty c.
    } else if a[0] == b[0] && b[0] == c[0] {
        lemma_lex_trans(a.skip(1), b.skip(1), c.skip(1));
    }
}

/// The order is asymmetric.
pub proof fn lemma_lex_asym(a: Seq<char>, b: Seq<char>)
    requires
        lex_lt(a, b),
    ensures
        !lex_lt(b, a),
{
    if lex_lt(b, a) {
        lemma_lex_trans(a, b, a);
        lemma_lex_irrefl(a);
    }
}

} // verus!
