use vstd::prelude::*;
use crate::order::{
    empty_contents, is_empty_map, is_max_key, is_min_key, keys_represent, lex_lt, lookup,
    lemma_lex_asym, lemma_lex_irrefl, lemma_lex_trans,
};

verus! {

/// Round trip: writing `v` under `k` and then looking `k` up in the
/// resulting contents yields `v`, for every store contents, key and
/// value. `Session::set` establishes the inserted contents and
/// `Session::get` returns exactly `lookup`.
pub proof fn lemma_set_then_get(m: Map<Seq<char>, Seq<char>>, k: Seq<char>, v: Seq<char>)
    ensures
        lookup(m.insert(k, v), k) == v,
{
}

/// Deleting a key twice in a row leaves the same contents as deleting it
/// once; the second deletion is a no-op, and `Session::remove` has no
/// precondition, so the second call does not fail.
pub proof fn lemma_remove_twice(m: Map<Seq<char>, Seq<char>>, k: Seq<char>)
    ensures
        m.remove(k).remove(k) == m.remove(k),
{
    assert(m.remove(k).remove(k) =~= m.remove(k));
}

/// Writes under distinct keys commute: the contents of the store do not
/// depend on the order in which distinct keys were inserted.
pub proof fn lemma_insert_commutes(
    m: Map<Seq<char>, Seq<char>>,
    k1: Seq<char>,
    v1: Seq<char>,
    k2: Seq<char>,
    v2: Seq<char>,
)
    requires
        k1 != k2,
    ensures
        m.insert(k1, v1).insert(k2, v2) == m.insert(k2, v2).insert(k1, v1),
{
    assert(m.insert(k1, v1).insert(k2, v2) =~= m.insert(k2, v2).insert(k1, v1));
}

/// On contents holding exactly three keys in increasing order, the
/// minimal key — the one `first` reads — is the smallest of the three,
/// however the three came to be inserted.
pub proof fn lemma_min_of_three(
    m: Map<Seq<char>, Seq<char>>,
    ka: Seq<char>,
    kb: Seq<char>,
    kc: Seq<char>,
    k: Seq<char>,
)
    requires
        m.dom() =~= set![ka, kb, kc],
        lex_lt(ka, kb),
        lex_lt(kb, kc),
        is_min_key(m, k),
    ensures
        k == ka,
{
    lemma_lex_trans(ka, kb, kc);
    assert(m.dom().contains(ka));
    assert(!lex_lt(ka, k));
    if k == kb {
        assert(false);
    } else if k == kc {
        assert(false);
    }
}

/// On contents holding exactly three keys in increasing order, the
/// maximal key — the one `last` reads — is the largest of the three.
pub proof fn lemma_max_of_three(
    m: Map<Seq<char>, Seq<char>>,
    ka: Seq<char>,
    kb: Seq<char>,
    kc: Seq<char>,
    k: Seq<char>,
)
    requires
        m.dom() =~= set![ka, kb, kc],
        lex_lt(ka, kb),
        lex_lt(kb, kc),
        is_max_key(m, k),
    ensures
        k == kc,
{
    lemma_lex_trans(ka, kb, kc);
    assert(m.dom().contains(kc));
    assert(!lex_lt(k, kc));
    if k == ka {
        assert(false);
    } else if k == kb {
        assert(false);
    }
}

/// On contents holding exactly three keys in increasing order, whatever
/// `first` returned — some value under a minimal key — is the value
/// under the smallest of the three.
pub proof fn lemma_first_of_three(
    m: Map<Seq<char>, Seq<char>>,
    ka: Seq<char>,
    kb: Seq<char>,
    kc: Seq<char>,
    v: Seq<char>,
)
    requires
        m.dom() =~= set![ka, kb, kc],
        lex_lt(ka, kb),
        lex_lt(kb, kc),
        exists|k: Seq<char>| is_min_key(m, k) && m[k] == v,
    ensures
        v == m[ka],
{
    let k = choose|k: Seq<char>| is_min_key(m, k) && m[k] == v;
    lemma_min_of_three(m, ka, kb, kc, k);
}

/// On contents holding exactly three keys in increasing order, whatever
/// `last` returned — some value under a maximal key — is the value
/// under the largest of the three.
pub proof fn lemma_last_of_three(
    m: Map<Seq<char>, Seq<char>>,
    ka: Seq<char>,
    kb: Seq<char>,
    kc: Seq<char>,
    v: Seq<char>,
)
    requires
        m.dom() =~= set![ka, kb, kc],
        lex_lt(ka, kb),
        lex_lt(kb, kc),
        exists|k: Seq<char>| is_max_key(m, k) && m[k] == v,
    ensures
        v == m[kc],
{
    let k = choose|k: Seq<char>| is_max_key(m, k) && m[k] == v;
    lemma_max_of_three(m, ka, kb, kc, k);
}

/// On contents holding exactly three keys in increasing order, any key
/// listing that represents the contents — as `keys` returns — is exactly
/// those three keys, ascending, whatever order they were inserted in.
pub proof fn lemma_keys_of_three(
    ks: Seq<String>,
    m: Map<Seq<char>, Seq<char>>,
    ka: Seq<char>,
    kb: Seq<char>,
    kc: Seq<char>,
)
    requires
        keys_represent(ks, m),
        m.dom() =~= set![ka, kb, kc],
        lex_lt(ka, kb),
        lex_lt(kb, kc),
    ensures
        ks.len() == 3,
        ks[0]@ == ka,
        ks[1]@ == kb,
        ks[2]@ == kc,
{
    lemma_lex_trans(ka, kb, kc);
    lemma_lex_asym(ka, kb);
    lemma_lex_asym(kb, kc);
    lemma_lex_asym(ka, kc);
    lemma_lex_irrefl(ka);
    lemma_lex_irrefl(kb);
    lemma_lex_irrefl(kc);
    broadcast use vstd::set::axiom_set_empty_len;

    let s0 = Set::<Seq<char>>::empty();
    vstd::set::axiom_set_insert_len(s0, ka);
    vstd::set::axiom_set_insert_len(s0.insert(ka), kb);
    vstd::set::axiom_set_insert_len(s0.insert(ka).insert(kb), kc);
    assert(m.dom().len() == 3);
    assert(ks.len() == 3);
    assert(m.dom().contains(ka));
    assert(m.dom().contains(kb));
    assert(m.dom().contains(kc));
    let ia = choose|i: int| 0 <= i < ks.len() && #[trigger] ks[i]@ == ka;
    let ib = choose|i: int| 0 <= i < ks.len() && #[trigger] ks[i]@ == kb;
    let ic = choose|i: int| 0 <= i < ks.len() && #[trigger] ks[i]@ == kc;
    assert(ks[ia]@ == ka && ks[ib]@ == kb && ks[ic]@ == kc);
    assert(ia < ib) by {
        if ib < ia {
            assert(lex_lt(ks[ib]@, ks[ia]@));
        }
    }
    assert(ib < ic) by {
        if ic < ib {
            assert(lex_lt(ks[ic]@, ks[ib]@));
        }
    }
    assert(ia == 0 && ib == 1 && ic == 2);
}

/// An empty store — freshly created, or just cleared — answers every
/// read with its sentinel: lookup yields the empty value for any key, no
/// key is present, the size is zero, and there is no first or last
/// entry. `Session::clear` establishes exactly these contents.
pub proof fn lemma_empty_store(k: Seq<char>)
    ensures
        lookup(empty_contents(), k) == Seq::<char>::empty(),
        !empty_contents().dom().contains(k),
        empty_contents().dom().len() == 0,
        is_empty_map(empty_contents()),
{
    broadcast use vstd::set::axiom_set_empty_len;

    assert(empty_contents().dom() =~= Set::<Seq<char>>::empty());
}

} // verus!
