use ext_php_rs::error::Error;
use ext_php_rs::array::ZendHashTable;
use ext_php_rs::class::ClassEntry;
use ext_php_rs::execute_data::ExecuteData;
use ext_php_rs::flags::DataType;
use ext_php_rs::object::ZendObject;
use ext_php_rs::rc::PhpRc;
use ext_php_rs::string::ZendStr;
use ext_php_rs::zval::Zval;

#[test]
fn zvals_read_back_what_was_set() {
    let mut z = Zval::new();
    assert!(z.is_null());
    z.set_long(-5);
    assert_eq!(z.long(), Some(-5));
    assert_eq!(z.get_type(), DataType::Long);
    z.set_bool(true);
    assert_eq!(z.bool(), Some(true));
    assert!(z.is_true());
    z.set_double_bits(0x4000_0000_0000_0000);
    assert_eq!(z.double_bits(), Some(0x4000_0000_0000_0000));
    z.set_string("héllo", false).unwrap();
    assert_eq!(z.str(), Some("héllo"));
    assert_eq!(z.string(), Some("héllo".to_string()));
    z.set_resource(9);
    assert_eq!(z.resource(), Some(9));
    z.set_null();
    assert!(z.is_null());
    assert_eq!(z.extract::<i64>(), None);
    z.set_long(3);
    assert_eq!(z.extract::<i64>(), Some(3));
}

#[test]
fn object_zvals_and_refcounts() {
    let mut obj = ZendObject::new_stdclass(4);
    assert_eq!(PhpRc::get_count(&obj), 1);
    let mut z = Zval::new();
    z.set_object(&mut obj);
    assert_eq!(obj.get_count(), 2);
    assert!(z.is_object());
    assert_eq!(z.object().unwrap().get_id(), 4);
    PhpRc::dec_count(&mut obj);
    assert_eq!(obj.get_count(), 1);
    PhpRc::inc_count(&mut obj);
    assert_eq!(PhpRc::get_count(&obj), 2);

    let mut s = ZendStr::from_str("x", false);
    PhpRc::inc_count(&mut s);
    assert_eq!(PhpRc::get_count(&s), 2);
    PhpRc::dec_count(&mut s);
    assert_eq!(s.get_count(), 1);
}

#[test]
fn method_calls_find_their_object() {
    let obj = ZendObject::new_stdclass(1);
    let mut this = Zval::new();
    let mut o = obj.duplicate();
    this.set_object(&mut o);
    let ex = ExecuteData { function_name: "Foo::bar".to_string(), this, args: vec![] };
    assert!(ex.get_self().is_some());
    assert!(ex.get_object(&ClassEntry::std_class()).is_some());
    assert!(ex.get_object(&ClassEntry::exception()).is_none());
    let (parser, found) = ex.parser_method(&ClassEntry::std_class());
    assert!(found.is_some());
    assert!(parser.parse(&mut ext_php_rs::globals::ExecutorGlobals::new()).unwrap().is_empty());
    let plain = ExecuteData { function_name: "f".to_string(), this: Zval::new(), args: vec![] };
    assert!(plain.get_object(&ClassEntry::std_class()).is_none());
}

#[test]
fn coercions_with_doubles_use_the_supplied_conversions() {
    let mut z = Zval::new();
    z.set_double_bits(2.5f64.to_bits());
    assert_eq!(z.coerce_into_string("2.5"), Ok(()));
    assert_eq!(z.str(), Some("2.5"));
    let mut z = Zval::new();
    z.set_double_bits((-3.9f64).to_bits());
    assert_eq!(z.coerce_into_long(-3), Ok(()));
    assert_eq!(z.long(), Some(-3));
    let mut z = Zval::new();
    z.set_string("42", false).unwrap();
    assert_eq!(z.coerce_into_long(0), Ok(()));
    assert_eq!(z.long(), Some(42));
    let mut z = Zval::new();
    z.set_long(-7);
    assert_eq!(z.coerce_into_string(""), Ok(()));
    assert_eq!(z.str(), Some("-7"));
    let mut z = Zval::new();
    z.set_bool(true);
    assert_eq!(z.coerce_into_string(""), Ok(()));
    assert_eq!(z.str(), Some("1"));
    let mut z = Zval::new();
    z.set_bool(false);
    assert_eq!(z.coerce_into_string(""), Ok(()));
    assert_eq!(z.str(), Some(""));
}

#[test]
fn coercion_of_booleans_and_arrays() {
    let mut z = Zval::new();
    z.set_bool(true);
    assert_eq!(z.coerce_into_long(0), Ok(()));
    assert_eq!(z.long(), Some(1));
    let mut z = Zval::new();
    z.set_bool(false);
    assert_eq!(z.coerce_into_long(0), Ok(()));
    assert_eq!(z.long(), Some(0));
    let mut ht = ZendHashTable::new();
    ht.push(1i64).unwrap();
    let mut z = Zval::new();
    z.set_hashtable(ht);
    assert_eq!(z.coerce_into_long(0), Ok(()));
    assert_eq!(z.long(), Some(1));
    let mut z = Zval::new();
    z.set_hashtable(ZendHashTable::new());
    assert_eq!(z.coerce_into_bool(), Ok(()));
    assert_eq!(z.bool(), Some(false));
    let mut ht = ZendHashTable::new();
    ht.push(1i64).unwrap();
    let mut z = Zval::new();
    z.set_hashtable(ht);
    assert_eq!(z.coerce_into_bool(), Ok(()));
    assert_eq!(z.bool(), Some(true));
    let mut z = Zval::new();
    z.set_resource(3);
    assert!(z.coerce_into_long(0).is_err());
    assert_eq!(z.resource(), Some(3));
}

#[test]
fn mutable_access_changes_what_the_zval_holds() {
    let mut z = Zval::new();
    z.set_hashtable(ZendHashTable::new());
    z.array_mut().unwrap().push(5i64).unwrap();
    assert_eq!(z.array().unwrap().get_index(0).unwrap().long(), Some(5));
    let mut n = Zval::new();
    assert!(n.array_mut().is_none());
    assert!(n.object_mut().is_none());

    let mut obj = ZendObject::new_stdclass(2);
    let mut zo = Zval::new();
    zo.set_object(&mut obj);
    zo.object_mut().unwrap().set_property("p", 1i64).unwrap();
    assert_eq!(zo.object().unwrap().get_property::<i64>("p").unwrap(), 1);

    let mut target = Zval::new();
    target.set_long(1);
    let mut r = Zval::new();
    r.set_reference(target);
    assert!(r.is_reference());
    r.dereference_mut().set_long(99);
    assert_eq!(r.reference().unwrap().long(), Some(99));
    r.reference_mut().unwrap().set_bool(false);
    assert_eq!(r.dereference().bool(), Some(false));
    let mut plain = Zval::new();
    plain.dereference_mut().set_long(3);
    assert_eq!(plain.long(), Some(3));
    assert!(plain.indirect_mut().is_none());
}

#[test]
fn object_hashes_follow_handles() {
    let a = ZendObject::new_stdclass(1);
    let b = ZendObject::new_stdclass(0xabc);
    assert_eq!(a.hash(), "00000000000000010000000000000000");
    assert_eq!(b.hash(), "0000000000000abc0000000000000000");
    assert_ne!(a.hash(), b.hash());
    assert_eq!(ZendObject::new_stdclass(u32::MAX).hash(), "00000000ffffffff0000000000000000");
}

#[test]
fn pointer_zval_reads_back_its_address() {
    let mut z = Zval::new();
    z.set_ptr(0x1234);
    assert!(z.is_ptr());
    assert_eq!(z.ptr(), Some(0x1234));
    assert_eq!(z.get_type(), DataType::Ptr);
}

#[test]
fn coercion_into_double_uses_the_supplied_values() {
    let mut z = Zval::new();
    z.set_long(3);
    assert_eq!(z.coerce_into_double(3.0f64.to_bits(), None), Ok(()));
    assert_eq!(z.double_bits(), Some(3.0f64.to_bits()));
    let mut z = Zval::new();
    z.set_string("2.5", false).unwrap();
    assert_eq!(z.coerce_into_double(0, Some(2.5f64.to_bits())), Ok(()));
    assert_eq!(z.double_bits(), Some(2.5f64.to_bits()));
    let mut z = Zval::new();
    z.set_string("x", false).unwrap();
    assert_eq!(z.coerce_into_double(0, None), Err(Error::ZvalConversion(DataType::String)));
    assert_eq!(z.str(), Some("x"));
    let mut z = Zval::new();
    z.set_bool(true);
    assert_eq!(z.coerce_into_double(0, None), Ok(()));
    assert_eq!(z.double_bits(), Some(1.0f64.to_bits()));
    let mut z = Zval::new();
    z.set_hashtable(ZendHashTable::new());
    assert_eq!(z.coerce_into_double(0, None), Ok(()));
    assert_eq!(z.double_bits(), Some(0.0f64.to_bits()));
    let mut z = Zval::new();
    assert_eq!(z.coerce_into_double(0, None), Err(Error::ZvalConversion(DataType::Null)));
    assert!(z.is_null());
}
