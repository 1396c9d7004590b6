use ext_php_rs::array::ZendHashTable;
use ext_php_rs::array_key::ArrayKey;
use ext_php_rs::error::Error;
use ext_php_rs::zval::Zval;

fn str_pairs<'a>(p: &[(&'a str, &'a str)]) -> Vec<(ArrayKey<'a>, &'a str)> {
    p.iter().map(|(k, v)| (ArrayKey::from_str(*k), *v)).collect()
}

fn long_pairs<'a>(p: &[(i64, &'a str)]) -> Vec<(ArrayKey<'a>, &'a str)> {
    p.iter().map(|(k, v)| (ArrayKey::Long(*k), *v)).collect()
}

#[test]
fn test_hash_table_try_from_vec() {
    let vec = str_pairs(&[("key1", "value1"), ("key2", "value2"), ("key3", "value3")]);

    let ht = ZendHashTable::try_from_pairs(vec).unwrap();
    assert_eq!(ht.len(), 3);
    assert_eq!(ht.get("key1").unwrap().string().unwrap(), "value1");
    assert_eq!(ht.get("key2").unwrap().string().unwrap(), "value2");
    assert_eq!(ht.get("key3").unwrap().string().unwrap(), "value3");

    let vec_i64 = long_pairs(&[(1, "value1"), (2, "value2"), (3, "value3")]);

    let ht_i64 = ZendHashTable::try_from_pairs(vec_i64).unwrap();
    assert_eq!(ht_i64.len(), 3);
    assert_eq!(ht_i64.get_index(1).unwrap().string().unwrap(), "value1");
    assert_eq!(ht_i64.get_index(2).unwrap().string().unwrap(), "value2");
    assert_eq!(ht_i64.get_index(3).unwrap().string().unwrap(), "value3");
}

#[test]
fn test_vec_k_v_into_zval() {
    let vec = str_pairs(&[("key1", "value1"), ("key2", "value2"), ("key3", "value3")]);

    let mut zval = Zval::new();
    zval.set_pairs(vec).unwrap();
    assert!(zval.is_array());
    let ht: &ZendHashTable = zval.array().unwrap();
    assert_eq!(ht.len(), 3);
    assert_eq!(ht.get("key1").unwrap().string().unwrap(), "value1");
    assert_eq!(ht.get("key2").unwrap().string().unwrap(), "value2");
    assert_eq!(ht.get("key3").unwrap().string().unwrap(), "value3");

    let vec_i64 = long_pairs(&[(1, "value1"), (2, "value2"), (3, "value3")]);
    let mut zval_i64 = Zval::new();
    zval_i64.set_pairs(vec_i64).unwrap();
    assert!(zval_i64.is_array());
    let ht_i64: &ZendHashTable = zval_i64.array().unwrap();
    assert_eq!(ht_i64.len(), 3);
    assert_eq!(ht_i64.get_index(1).unwrap().string().unwrap(), "value1");
    assert_eq!(ht_i64.get_index(2).unwrap().string().unwrap(), "value2");
    assert_eq!(ht_i64.get_index(3).unwrap().string().unwrap(), "value3");
}

#[test]
fn test_vec_k_v_from_zval() {
    let mut ht = ZendHashTable::new();
    ht.insert_key(ArrayKey::from_str("key1"), "value1").unwrap();
    ht.insert_key(ArrayKey::from_str("key2"), "value2").unwrap();
    ht.insert_key(ArrayKey::from_str("key3"), "value3").unwrap();
    let mut zval = Zval::new();
    zval.set_hashtable(ht);

    let vec: Vec<(String, String)> = zval.array().unwrap().try_into_string_pairs().unwrap();
    assert_eq!(vec.len(), 3);
    assert_eq!(vec[0].0, "key1");
    assert_eq!(vec[0].1, "value1");
    assert_eq!(vec[1].0, "key2");
    assert_eq!(vec[1].1, "value2");
    assert_eq!(vec[2].0, "key3");
    assert_eq!(vec[2].1, "value3");

    let mut ht_i64 = ZendHashTable::new();
    ht_i64.insert_key(ArrayKey::Long(1), "value1").unwrap();
    ht_i64.insert("2", "value2").unwrap();
    ht_i64.insert_key(ArrayKey::Long(3), "value3").unwrap();
    let mut zval_i64 = Zval::new();
    zval_i64.set_hashtable(ht_i64);

    let vec_i64: Vec<(i64, String)> = zval_i64.array().unwrap().try_into_long_pairs().unwrap();
    assert_eq!(vec_i64.len(), 3);
    assert_eq!(vec_i64[0].0, 1);
    assert_eq!(vec_i64[0].1, "value1");
    assert_eq!(vec_i64[1].0, 2);
    assert_eq!(vec_i64[1].1, "value2");
    assert_eq!(vec_i64[2].0, 3);
    assert_eq!(vec_i64[2].1, "value3");

    let mut ht_mixed = ZendHashTable::new();
    ht_mixed.insert_key(ArrayKey::from_str("key1"), "value1").unwrap();
    ht_mixed.insert_key(ArrayKey::Long(2), "value2").unwrap();
    ht_mixed.insert_key(ArrayKey::from_str("3"), "value3").unwrap();
    let mut zval_mixed = Zval::new();
    zval_mixed.set_hashtable(ht_mixed);

    let vec_mixed: Option<Vec<(String, String)>> =
        zval_mixed.array().and_then(|a| a.try_into_string_pairs().ok());
    assert!(vec_mixed.is_some());
}

#[test]
fn test_vec_array_key_v_from_zval() {
    let mut ht = ZendHashTable::new();
    ht.insert_key(ArrayKey::from_str("key1"), "value1").unwrap();
    ht.insert_key(ArrayKey::Long(2), "value2").unwrap();
    ht.insert_key(ArrayKey::from_str("3"), "value3").unwrap();
    let mut zval = Zval::new();
    zval.set_hashtable(ht);

    let vec: Vec<(ArrayKey, String)> = zval.array().unwrap().try_into_pairs().unwrap();
    assert_eq!(vec.len(), 3);
    assert_eq!(vec[0].0, ArrayKey::String("key1".to_string()));
    assert_eq!(vec[0].1, "value1");
    assert_eq!(vec[1].0, ArrayKey::Long(2));
    assert_eq!(vec[1].1, "value2");
    assert_eq!(vec[2].0, ArrayKey::Long(3));
    assert_eq!(vec[2].1, "value3");
}

#[test]
fn test_vec_i64_v_try_from_hash_table() {
    let mut ht = ZendHashTable::new();
    ht.insert_key(ArrayKey::Long(1), "value1").unwrap();
    ht.insert("2", "value2").unwrap();

    let vec: Vec<(i64, String)> = ht.try_into_long_pairs().unwrap();
    assert_eq!(vec.len(), 2);
    assert_eq!(vec[0].0, 1);
    assert_eq!(vec[0].1, "value1");
    assert_eq!(vec[1].0, 2);
    assert_eq!(vec[1].1, "value2");

    let mut ht2 = ZendHashTable::new();
    ht2.insert_key(ArrayKey::from_str("key1"), "value1").unwrap();
    ht2.insert_key(ArrayKey::from_str("key2"), "value2").unwrap();

    let vec2: Result<Vec<(i64, String)>, Error> = ht2.try_into_long_pairs();
    assert!(vec2.is_err());
    assert!(matches!(vec2.unwrap_err(), Error::InvalidProperty));
}

#[test]
fn test_vec_string_v_try_from_hash_table() {
    let mut ht = ZendHashTable::new();
    ht.insert_key(ArrayKey::from_str("key1"), "value1").unwrap();
    ht.insert_key(ArrayKey::from_str("key2"), "value2").unwrap();

    let vec: Vec<(String, String)> = ht.try_into_string_pairs().unwrap();
    assert_eq!(vec.len(), 2);
    assert_eq!(vec[0].0, "key1");
    assert_eq!(vec[0].1, "value1");
    assert_eq!(vec[1].0, "key2");
    assert_eq!(vec[1].1, "value2");

    let mut ht2 = ZendHashTable::new();
    ht2.insert_key(ArrayKey::Long(1), "value1").unwrap();
    ht2.insert_key(ArrayKey::Long(2), "value2").unwrap();

    let vec2: Result<Vec<(String, String)>, Error> = ht2.try_into_string_pairs();
    assert!(vec2.is_ok());
}

#[test]
fn test_vec_array_key_v_try_from_hash_table() {
    let mut ht = ZendHashTable::new();
    ht.insert_key(ArrayKey::from_str("key1"), "value1").unwrap();
    ht.insert_key(ArrayKey::Long(2), "value2").unwrap();
    ht.insert_key(ArrayKey::from_str("3"), "value3").unwrap();

    let vec: Vec<(ArrayKey, String)> = ht.try_into_pairs().unwrap();
    assert_eq!(vec.len(), 3);
    assert_eq!(vec[0].0, ArrayKey::String("key1".to_string()));
    assert_eq!(vec[0].1, "value1");
    assert_eq!(vec[1].0, ArrayKey::Long(2));
    assert_eq!(vec[1].1, "value2");
    assert_eq!(vec[2].0, ArrayKey::Long(3));
    assert_eq!(vec[2].1, "value3");
}

#[test]
fn pairs_with_nul_keys_or_failing_values_are_refused() {
    let vec = str_pairs(&[("a", "1"), ("b\0c", "2")]);
    assert_eq!(ZendHashTable::try_from_pairs(vec).unwrap_err(), Error::InvalidCString);
    let mut ht = ZendHashTable::new();
    ht.insert("k", true).unwrap();
    let r: Result<Vec<(ArrayKey, i64)>, Error> = ht.try_into_pairs();
    assert_eq!(r.unwrap_err(), Error::ZvalConversion(ext_php_rs::flags::DataType::True));
}
