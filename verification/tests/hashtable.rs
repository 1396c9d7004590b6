use ext_php_rs::array::{BucketKey, ZendHashTable};
use ext_php_rs::array_key::ArrayKey;
use ext_php_rs::error::Error;
use ext_php_rs::zval::Zval;

#[test]
fn read_after_write() {
    let mut ht = ZendHashTable::new();
    ht.insert("a", 1i64).unwrap();
    ht.insert("b", "two").unwrap();
    ht.insert_at_index(7, true).unwrap();
    assert_eq!(ht.get("a").unwrap().long(), Some(1));
    assert_eq!(ht.get("b").unwrap().string().unwrap(), "two");
    assert_eq!(ht.get_index(7).unwrap().bool(), Some(true));
    assert!(ht.get("c").is_none());
    // Overwriting keeps a single entry.
    ht.insert("a", 5i64).unwrap();
    assert_eq!(ht.len(), 3);
    assert_eq!(ht.get("a").unwrap().long(), Some(5));
    assert_eq!(ht.get("b").unwrap().string().unwrap(), "two");
}

#[test]
fn remove_then_read_finds_nothing() {
    let mut ht = ZendHashTable::new();
    ht.insert("x", 1i64).unwrap();
    ht.insert("y", 2i64).unwrap();
    assert_eq!(ht.remove("x"), Some(()));
    assert!(ht.get("x").is_none());
    assert_eq!(ht.get("y").unwrap().long(), Some(2));
    assert_eq!(ht.remove("x"), None);
    ht.push(3i64).unwrap();
    assert_eq!(ht.remove_index(0), Some(()));
    assert!(ht.get_index(0).is_none());
    assert_eq!(ht.len(), 1);
}

#[test]
fn push_uses_next_free_index() {
    let mut ht = ZendHashTable::new();
    ht.push("a").unwrap();
    ht.push("b").unwrap();
    assert!(ht.has_sequential_keys());
    ht.insert_at_index(10, "c").unwrap();
    ht.push("d").unwrap();
    assert_eq!(ht.get_index(11).unwrap().string().unwrap(), "d");
    assert!(ht.has_numerical_keys());
    assert!(!ht.has_sequential_keys());
    ht.insert("k", "v").unwrap();
    assert!(!ht.has_numerical_keys());
}

#[test]
fn insert_rejects_nul_key_and_bad_values() {
    let mut ht = ZendHashTable::new();
    assert_eq!(ht.insert("a\0b", 1i64), Err(Error::InvalidCString));
    assert_eq!(ht.insert("a", u64::MAX), Err(Error::IntegerOverflow));
    assert!(ht.is_empty());
}

#[test]
fn iterator_yields_entries_in_order_from_both_ends() {
    let mut ht = ZendHashTable::new();
    ht.insert("first", 1i64).unwrap();
    ht.push(2i64).unwrap();
    ht.insert("third", 3i64).unwrap();
    let mut it = ht.iter();
    assert_eq!(it.len(), 3);
    let (k, v) = it.next().unwrap();
    assert_eq!(k, ArrayKey::String("first".to_string()));
    assert_eq!(v.long(), Some(1));
    let (k, v) = it.next_back().unwrap();
    assert_eq!(k, ArrayKey::String("third".to_string()));
    assert_eq!(v.long(), Some(3));
    let (k, v) = it.next().unwrap();
    assert_eq!(k, ArrayKey::Long(0));
    assert_eq!(v.long(), Some(2));
    assert!(it.next().is_none());
    assert!(it.next_back().is_none());
    assert_eq!(it.len(), 0);
}

#[test]
fn iterator_len_counts_entries_still_to_come() {
    let mut ht = ZendHashTable::new();
    ht.push(1i64).unwrap();
    ht.push(2i64).unwrap();
    let mut it = ht.iter();
    assert_eq!(it.len(), 2);
    it.next();
    assert_eq!(it.len(), 1);
    assert_eq!(it.count(), 1);
}

#[test]
fn next_zval_reports_keys_as_zvals() {
    let mut ht = ZendHashTable::new();
    ht.insert_at_index(u64::MAX, "neg").unwrap();
    ht.insert("name", "v").unwrap();
    let mut it = ht.iter();
    let (k, _) = it.next_zval().unwrap();
    assert_eq!(k.long(), Some(-1));
    let (k, _) = it.next_zval().unwrap();
    assert_eq!(k.string().unwrap(), "name");
    assert!(it.next_zval().is_none());
    assert_eq!(ht.iter().count(), 2);
}

#[test]
fn values_iterate_values() {
    let mut ht = ZendHashTable::new();
    ht.push(10i64).unwrap();
    ht.push(20i64).unwrap();
    ht.push(30i64).unwrap();
    let mut vals = ht.values();
    assert_eq!(vals.len(), 3);
    assert_eq!(vals.next().unwrap().long(), Some(10));
    assert_eq!(vals.len(), 2);
    assert_eq!(vals.next_back().unwrap().long(), Some(30));
    assert_eq!(vals.next().unwrap().long(), Some(20));
    assert!(vals.next().is_none());
    assert!(vals.next_back().is_none());
}

#[test]
fn entries_expose_bucket_keys() {
    let mut ht = ZendHashTable::new();
    ht.insert_zval("k", Zval::new());
    let (k, v) = ht.entry_at(0);
    assert!(matches!(k, BucketKey::Name(_)));
    assert!(v.is_null());
}
