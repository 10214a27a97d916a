use sled_store::store::{Session, Store};
use sled_store::StoreError;

fn fresh(path: &str) -> Store {
    let s = Store::new(path.to_string());
    s.clear().expect("could not clear the store");
    s
}

#[test]
fn round_trip_set_then_get() {
    let s = fresh("/tmp/sled_store_round_trip");
    assert_eq!(s.set("alpha", "one").unwrap(), "one");
    assert_eq!(s.get("alpha").unwrap(), "one");
    // overwriting is silent and the echo is the newly written value
    assert_eq!(s.set("alpha", "two").unwrap(), "two");
    assert_eq!(s.get("alpha").unwrap(), "two");
}

#[test]
fn remove_twice_is_idempotent() {
    let s = fresh("/tmp/sled_store_remove_twice");
    s.set("k", "v").unwrap();
    s.remove("k").unwrap();
    let size_after_once = s.size().unwrap();
    // the second call hits an absent key: a no-op, not a failure
    s.remove("k").unwrap();
    assert_eq!(size_after_once, 0);
    assert_eq!(s.size().unwrap(), 0);
    assert_eq!(s.get("k").unwrap(), "");
}

#[test]
fn ordering_first_last_keys() {
    let s = fresh("/tmp/sled_store_ordering");
    // inserted out of order on purpose
    s.set("m", "vm").unwrap();
    s.set("z", "vz").unwrap();
    s.set("a", "va").unwrap();
    assert_eq!(s.first().unwrap(), "va");
    assert_eq!(s.last().unwrap(), "vz");
    assert_eq!(s.keys().unwrap(), vec!["a".to_string(), "m".to_string(), "z".to_string()]);
    assert_eq!(s.values().unwrap(), vec!["va".to_string(), "vm".to_string(), "vz".to_string()]);
}

#[test]
fn empty_store_semantics() {
    let s = fresh("/tmp/sled_store_empty");
    assert_eq!(s.first().unwrap(), "");
    assert_eq!(s.last().unwrap(), "");
    assert_eq!(s.get("anything").unwrap(), "");
    assert_eq!(s.size().unwrap(), 0);
    assert!(!s.has("anything").unwrap());
    assert_eq!(s.keys().unwrap().len(), 0);
    assert_eq!(s.values().unwrap().len(), 0);
    assert_eq!(s.all().unwrap().len(), 0);
}

#[test]
fn clear_semantics() {
    let s = fresh("/tmp/sled_store_clear");
    s.set("k", "v").unwrap();
    s.clear().unwrap();
    assert_eq!(s.size().unwrap(), 0);
    assert_eq!(s.get("k").unwrap(), "");
}

#[test]
fn scenario_fruit_veg() {
    let s = fresh("/tmp/sled_store_scenario");
    s.set("fruit", "apple").unwrap();
    s.set("veg", "carrot").unwrap();
    assert_eq!(s.size().unwrap(), 2);
    assert_eq!(s.keys().unwrap(), vec!["fruit".to_string(), "veg".to_string()]);
    let es = s.all().unwrap();
    assert_eq!(es.len(), 2);
    assert_eq!(es[0].key, "fruit");
    assert_eq!(es[0].value, "apple");
    assert_eq!(es[1].key, "veg");
    assert_eq!(es[1].value, "carrot");
    s.remove("fruit").unwrap();
    assert_eq!(s.size().unwrap(), 1);
    assert!(!s.has("fruit").unwrap());
}

#[test]
fn empty_value_conflates_with_absence() {
    let s = fresh("/tmp/sled_store_sentinel");
    s.set("k", "").unwrap();
    // a stored empty value reads as the same sentinel as a missing key;
    // only `has` tells the two apart
    assert_eq!(s.get("k").unwrap(), "");
    assert!(s.has("k").unwrap());
    assert!(!s.has("missing").unwrap());
}

#[test]
fn overlapping_sessions_fail_cleanly() {
    let path = "/tmp/sled_store_overlap";
    let s = fresh(path);
    s.set("k", "v").unwrap();
    let held = Session::open(path).unwrap();
    // While a live session elsewhere holds the engine's lock, an
    // operation neither blocks forever nor corrupts data: it fails to
    // open, cleanly.
    assert_eq!(s.get("k").unwrap_err(), StoreError::StoreOpen);
    assert_eq!(s.set("k", "w").unwrap_err(), StoreError::StoreOpen);
    held.close().unwrap();
    // once the lock is released, the completed write is still there
    assert_eq!(s.get("k").unwrap(), "v");
}

#[test]
fn stored_bytes_must_decode_as_text() {
    let path = "/tmp/sled_store_decode";
    let s = fresh(path);
    {
        // plant a non-text value directly through the engine
        let db = sled::open(path).unwrap();
        db.insert("bad", &[0xffu8, 0xfe][..]).unwrap();
        db.flush().unwrap();
    }
    assert_eq!(s.get("bad").unwrap_err(), StoreError::TextDecoding);
    assert_eq!(s.first().unwrap_err(), StoreError::TextDecoding);
    assert_eq!(s.values().unwrap_err(), StoreError::TextDecoding);
    s.clear().unwrap();
}

#[test]
fn session_scoped_operations() {
    let path = "/tmp/sled_store_session";
    let s = fresh(path);
    let mut sess = Session::open(path).unwrap();
    assert_eq!(sess.set("a", "1").unwrap(), "1");
    assert_eq!(sess.get("a").unwrap(), "1");
    assert_eq!(sess.size(), 1);
    assert!(sess.has("a").unwrap());
    sess.remove("a").unwrap();
    assert_eq!(sess.size(), 0);
    sess.close().unwrap();
    drop(s);
}
