use merlion_std::collections::{FnvHasher, FnvBuildHasher, HashMap, HashSet, FNV_OFFSET_BASIS};
use merlion_std::collections::hashbrown_inline;
use std::hash::Hasher;

#[test]
fn map_insert_get_replace() {
    let mut m: HashMap<u64, &str> = HashMap::new();
    assert!(m.is_empty());
    assert_eq!(m.insert(1, "one"), None);
    assert_eq!(m.insert(2, "two"), None);
    assert_eq!(m.len(), 2);
    assert_eq!(m.get(&1), Some(&"one"));
    assert_eq!(m.get(&3), None);
    assert_eq!(m.insert(1, "uno"), Some("one"));
    assert_eq!(m.get(&1), Some(&"uno"));
    assert_eq!(m.len(), 2);
}

#[test]
fn map_remove_leaves_others() {
    let mut m: HashMap<u64, u64> = HashMap::new();
    m.insert(10, 100);
    m.insert(20, 200);
    m.insert(30, 300);
    assert_eq!(m.remove(&20), Some(200));
    assert_eq!(m.remove(&20), None);
    assert_eq!(m.len(), 2);
    assert!(!m.contains_key(&20));
    assert!(m.contains_key(&10));
    assert_eq!(m.get(&30), Some(&300));
    // a removed key can come back
    assert_eq!(m.insert(20, 2), None);
    assert_eq!(m.get(&20), Some(&2));
    assert_eq!(m.len(), 3);
}

#[test]
fn map_get_mut_updates() {
    let mut m: HashMap<u64, u64> = HashMap::new();
    m.insert(7, 1);
    if let Some(v) = m.get_mut(&7) {
        *v += 41;
    }
    assert_eq!(m.get(&7), Some(&42));
    assert!(m.get_mut(&8).is_none());
}

#[test]
fn map_default_is_empty() {
    let m: hashbrown_inline::HashMap<u8, u8, FnvBuildHasher> = Default::default();
    assert_eq!(m.len(), 0);
    assert!(m.is_empty());
}

#[test]
fn set_insert_contains_remove() {
    let mut s: HashSet<u32> = HashSet::new();
    assert!(s.insert(5));
    assert!(!s.insert(5));
    assert!(s.insert(6));
    assert_eq!(s.len(), 2);
    assert!(s.contains(&5));
    assert!(s.remove(&5));
    assert!(!s.remove(&5));
    assert!(!s.contains(&5));
    assert_eq!(s.len(), 1);
}

#[test]
fn fnv_known_values() {
    let h = FnvHasher::new();
    assert_eq!(h.finish(), 0xcbf29ce484222325);
    assert_eq!(FNV_OFFSET_BASIS, 0xcbf29ce484222325);
    let mut h = FnvHasher::new();
    h.write(b"a");
    assert_eq!(h.finish(), 0xaf63dc4c8601ec8c);
    let mut h = FnvHasher::new();
    h.write(b"foobar");
    assert_eq!(h.finish(), 0x85944171f73967e8);
}

#[test]
fn fnv_streaming_matches_one_write() {
    let mut a = FnvHasher::new();
    a.write(b"foo");
    a.write(b"bar");
    let mut b = FnvHasher::new();
    b.write(b"foobar");
    assert_eq!(a.finish(), b.finish());
}

#[test]
fn fnv_build_hasher_starts_fresh() {
    let bh = FnvBuildHasher;
    assert_eq!(bh.build_hasher().finish(), FNV_OFFSET_BASIS);
}

#[test]
fn fnv_as_std_hasher() {
    let mut h = FnvHasher::new();
    <FnvHasher as Hasher>::write(&mut h, b"a");
    assert_eq!(<FnvHasher as Hasher>::finish(&h), 0xaf63dc4c8601ec8c);
}

#[test]
fn map_with_string_keys() {
    let mut m: HashMap<String, u32> = HashMap::new();
    assert_eq!(m.insert(String::from("alpha"), 1), None);
    assert_eq!(m.insert(String::from("beta"), 2), None);
    assert_eq!(m.insert(String::from("alpha"), 3), Some(1));
    assert_eq!(m.get(&String::from("alpha")), Some(&3));
    assert_eq!(m.remove(&String::from("beta")), Some(2));
    assert!(!m.contains_key(&String::from("beta")));
    assert_eq!(m.len(), 1);
    let mut s: HashSet<String> = HashSet::new();
    assert!(s.insert(String::from("x")));
    assert!(!s.insert(String::from("x")));
    assert!(s.contains(&String::from("x")));
}

#[test]
fn map_read_gives_latest_write() {
    let mut m: HashMap<u64, u64> = HashMap::new();
    m.insert(1, 10);
    m.insert(2, 20);
    m.insert(1, 11);
    m.remove(&2);
    if let Some(v) = m.get_mut(&1) {
        *v = 12;
    }
    assert!(m.get_mut(&2).is_none());
    m.insert(3, 30);
    m.remove(&3);
    m.insert(3, 31);
    assert_eq!(m.get(&1), Some(&12));
    assert_eq!(m.get(&2), None);
    assert_eq!(m.get(&3), Some(&31));
    assert_eq!(m.contains_key(&2), m.get(&2).is_some());
    assert_eq!(m.len(), 2);
}
