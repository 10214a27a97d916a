use vstd::prelude::*;
use crate::order::{is_empty_map, is_min_key, is_max_key, pairs_represent};
use crate::StoreError;

verus! {

/// `sled::Db` is the engine's handle onto one durable ordered keyspace.
/// The library treats it as opaque and sees it only through `contents`.
#[verifier::external_type_specification]
#[verifier::external_body]
pub struct ExDb(sled::Db);

/// The entries the engine currently holds behind a handle, as a map from
/// key text to value text. The library only ever stores text, so the
/// stored byte sequences are the encodings of these character sequences.
pub uninterp spec fn contents(db: sled::Db) -> Map<Seq<char>, Seq<char>>;

/// Relies on `sled::open`: opens the tree at the named location, creating
/// it if absent, and fails when the location cannot be opened or is
/// already held by a live handle. A tree holds finitely many entries.
#[verifier::external_body]
pub(crate) fn eng_open(name: &str) -> (r: Result<sled::Db, StoreError>)
    ensures
        r matches Ok(db) ==> contents(db).dom().finite(),
{
    sled::open(name).map_err(|_| StoreError::StoreOpen)
}

/// Relies on `sled::Tree::insert`: on success the tree holds `value`
/// under `key` and every other entry is unchanged.
#[verifier::external_body]
pub(crate) fn eng_insert(db: &mut sled::Db, key: &str, value: &str) -> (r: Result<
    (),
    StoreError,
>)
    ensures
        r is Ok ==> contents(*final(db)) == contents(*old(db)).insert(key@, value@),
{
    db.insert(key.as_bytes(), value.as_bytes()).map(|_| ()).map_err(|_| StoreError::Engine)
}

/// Relies on `sled::Tree::get` and `String::from_utf8`: returns the value
/// stored under `key` decoded as text, or `None` when the key is absent.
#[verifier::external_body]
pub(crate) fn eng_get(db: &sled::Db, key: &str) -> (r: Result<Option<String>, StoreError>)
    ensures
        r matches Ok(v) ==> match v {
            Option::Some(s) => contents(*db).dom().contains(key@) && s@ == contents(*db)[key@],
            Option::None => !contents(*db).dom().contains(key@),
        },
{
    match db.get(key.as_bytes()) {
        Err(_) => Err(StoreError::Engine),
        Ok(None) => Ok(None),
        Ok(Some(iv)) => match String::from_utf8(iv.to_vec()) {
            Ok(s) => Ok(Some(s)),
            Err(_) => Err(StoreError::TextDecoding),
        },
    }
}

/// Relies on `sled::Tree::remove`: on success the entry under `key` is
/// gone and every other entry is unchanged; an absent key is no error.
#[verifier::external_body]
pub(crate) fn eng_remove(db: &mut sled::Db, key: &str) -> (r: Result<(), StoreError>)
    ensures
        r is Ok ==> contents(*final(db)) == contents(*old(db)).remove(key@),
{
    db.remove(key.as_bytes()).map(|_| ()).map_err(|_| StoreError::Engine)
}

/// Relies on `sled::Tree::clear`: on success the tree holds no entry.
#[verifier::external_body]
pub(crate) fn eng_clear(db: &mut sled::Db) -> (r: Result<(), StoreError>)
    ensures
        r is Ok ==> contents(*final(db)) == crate::order::empty_contents(),
{
    db.clear().map_err(|_| StoreError::Engine)
}

/// Relies on `sled::Tree::len`: the number of entries in the tree.
#[verifier::external_body]
pub(crate) fn eng_len(db: &sled::Db) -> (r: usize)
    ensures
        r == contents(*db).dom().len(),
{
    db.len()
}

/// Relies on `sled::Tree::contains_key`: whether an entry exists under
/// `key`.
#[verifier::external_body]
pub(crate) fn eng_contains(db: &sled::Db, key: &str) -> (r: Result<bool, StoreError>)
    ensures
        r matches Ok(b) ==> b == contents(*db).dom().contains(key@),
{
    db.contains_key(key.as_bytes()).map_err(|_| StoreError::Engine)
}

/// Relies on `sled::Tree::first`: the entry with the smallest key in byte
/// order, or `None` on an empty tree. Byte order of encoded text
/// coincides with lexicographic order on its characters.
#[verifier::external_body]
pub(crate) fn eng_first(db: &sled::Db) -> (r: Result<Option<(String, String)>, StoreError>)
    ensures
        r matches Ok(v) ==> match v {
            Option::Some(p) => is_min_key(contents(*db), p.0@) && contents(*db)[p.0@] == p.1@,
            Option::None => is_empty_map(contents(*db)),
        },
{
    match db.first() {
        Err(_) => Err(StoreError::Engine),
        Ok(None) => Ok(None),
        Ok(Some((k, v))) => match (String::from_utf8(k.to_vec()), String::from_utf8(v.to_vec())) {
            (Ok(ks), Ok(vs)) => Ok(Some((ks, vs))),
            _ => Err(StoreError::TextDecoding),
        },
    }
}

/// Relies on `sled::Tree::last`: the entry with the largest key in byte
/// order, or `None` on an empty tree.
#[verifier::external_body]
pub(crate) fn eng_last(db: &sled::Db) -> (r: Result<Option<(String, String)>, StoreError>)
    ensures
        r matches Ok(v) ==> match v {
            Option::Some(p) => is_max_key(contents(*db), p.0@) && contents(*db)[p.0@] == p.1@,
            Option::None => is_empty_map(contents(*db)),
        },
{
    match db.last() {
        Err(_) => Err(StoreError::Engine),
        Ok(None) => Ok(None),
        Ok(Some((k, v))) => match (String::from_utf8(k.to_vec()), String::from_utf8(v.to_vec())) {
            (Ok(ks), Ok(vs)) => Ok(Some((ks, vs))),
            _ => Err(StoreError::TextDecoding),
        },
    }
}

/// Relies on `sled::Tree::iter`: yields every entry exactly once, in
/// ascending byte order of keys, which for stored text is lexicographic
/// order on its characters.
#[verifier::external_body]
pub(crate) fn eng_pairs(db: &sled::Db) -> (r: Result<Vec<(String, String)>, StoreError>)
    ensures
        r matches Ok(ps) ==> pairs_represent(ps@, contents(*db)),
{
    let mut out: Vec<(String, String)> = Vec::new();
    for item in db.iter() {
        let (k, v) = item.map_err(|_| StoreError::Engine)?;
        let ks = String::from_utf8(k.to_vec()).map_err(|_| StoreError::TextDecoding)?;
        let vs = String::from_utf8(v.to_vec()).map_err(|_| StoreError::TextDecoding)?;
        out.push((ks, vs));
    }
    Ok(out)
}

/// Relies on `sled::Tree::flush`: commits all prior writes on this tree
/// to stable storage before returning.
#[verifier::external_body]
pub(crate) fn eng_flush(db: &sled::Db) -> (r: Result<(), StoreError>) {
    db.flush().map(|_| ()).map_err(|_| StoreError::Flush)
}

} // verus!
