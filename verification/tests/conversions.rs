use ext_php_rs::array::ZendHashTable;
use ext_php_rs::convert::{FromZval, IntoZval, IntoZvalDyn};
use ext_php_rs::error::Error;
use ext_php_rs::flags::{DataType, ZvalTypeFlags, IS_LONG};
use ext_php_rs::zval::Zval;
use std::convert::TryFrom;

#[test]
fn vectors_become_lists() {
    let ht = ZendHashTable::try_from_vec(vec!["a", "b", "c"]).unwrap();
    assert_eq!(ht.len(), 3);
    assert!(ht.has_sequential_keys());
    assert_eq!(ht.get_index(2).unwrap().string().unwrap(), "c");
    let z = vec![1i64, 2, 3].into_zval(false).unwrap();
    assert!(z.is_array());
    assert_eq!(z.array().unwrap().get_index(0).unwrap().long(), Some(1));
}

#[test]
fn a_value_that_does_not_convert_fails_the_list() {
    assert_eq!(ZendHashTable::try_from_vec(vec![1u64, u64::MAX]).err(), Some(Error::IntegerOverflow));
    let mut z = Zval::new();
    z.set_long(4);
    assert_eq!(z.set_array(vec![u64::MAX]), Err(Error::IntegerOverflow));
    assert_eq!(z.long(), Some(4));
    assert_eq!(z.set_array(vec![true, false]), Ok(()));
    assert_eq!(z.array().unwrap().len(), 2);
}

#[test]
fn list_values_become_vectors() {
    let mut ht = ZendHashTable::new();
    ht.insert("x", 1i64).unwrap();
    ht.push(2i64).unwrap();
    assert_eq!(ht.try_into_vec::<i64>().unwrap(), vec![1, 2]);
    ht.push("three").unwrap();
    assert_eq!(ht.try_into_vec::<i64>().err(), Some(Error::ZvalConversion(DataType::String)));
    let mut z = Zval::new();
    z.set_hashtable(ht);
    assert!(Vec::<i64>::from_zval(&z).is_none());
    assert_eq!(Vec::<Zval>::from_zval(&z).unwrap().len(), 3);
}

#[test]
fn dynamic_conversions() {
    let values: Vec<&dyn IntoZvalDynCheck> = vec![&5i64, &"s", &true];
    assert_eq!(values.len(), 3);
    assert_eq!(5i64.as_zval(false).unwrap().long(), Some(5));
    assert_eq!("s".as_zval(false).unwrap().string().unwrap(), "s");
    assert_eq!(String::from("t").as_zval(false).unwrap().string().unwrap(), "t");
    assert_eq!(u64::MAX.as_zval(false).err(), Some(Error::IntegerOverflow));
    assert_eq!(true.get_type(), DataType::Bool);
}

trait IntoZvalDynCheck {}
impl<T: IntoZvalDyn> IntoZvalDynCheck for T {}

#[test]
fn data_type_names() {
    assert_eq!(DataType::Long.to_string(), "Long");
    assert_eq!(DataType::ConstantExpression.to_string(), "Constant Expression");
    assert_eq!(DataType::Object(None).to_string(), "Object");
    assert_eq!(DataType::Object(Some("Foo")).to_string(), "Foo");
    assert_eq!(DataType::Ptr.to_string(), "Pointer");
    assert_eq!(DataType::Undef.to_string(), "Undefined");
}

#[test]
fn type_flags_read_as_undef() {
    assert_eq!(DataType::try_from(ZvalTypeFlags::from_bits_retain(IS_LONG)), Ok(DataType::Undef));
    assert_eq!(DataType::try_from(ZvalTypeFlags::empty()), Ok(DataType::Undef));
}

#[test]
fn values_read_back_from_their_zvals() {
    assert_eq!(i64::from_zval(&(-9i64).into_zval(false).unwrap()), Some(-9));
    assert_eq!(i32::from_zval(&i32::MIN.into_zval(false).unwrap()), Some(i32::MIN));
    assert_eq!(u32::from_zval(&u32::MAX.into_zval(false).unwrap()), Some(u32::MAX));
    assert_eq!(bool::from_zval(&false.into_zval(false).unwrap()), Some(false));
    let s = "grüße".to_string();
    assert_eq!(String::from_zval(&s.clone().into_zval(false).unwrap()), Some(s));
    // A list read back gives the vector.
    let v = vec![3i64, 1, 2];
    let z = v.clone().into_zval(false).unwrap();
    assert_eq!(Vec::<i64>::from_zval(&z), Some(v));
}
