use ext_php_rs::class::ClassEntry;
use ext_php_rs::globals::ExecutorGlobals;
use ext_php_rs::handlers::{RegisteredClass, ZendClassObject, ZendObjectHandlers};
use ext_php_rs::error::Error;
use ext_php_rs::flags::DataType;
use ext_php_rs::props::{ClassProperties, FieldValue, Prop, Property};
use ext_php_rs::object::ZendObject;
use ext_php_rs::string::ZendStr;
use ext_php_rs::zval::Zval;

fn long(v: i64) -> Zval {
    let mut z = Zval::new();
    z.set_long(v);
    z
}

fn text(v: &str) -> Zval {
    let mut z = Zval::new();
    z.set_string(v, false).unwrap();
    z
}

/// A point with a field `x`, a read-write accessor `label` and an accessor
/// `broken` without getter or setter.
fn point(x: i64, label: Option<&str>) -> ZendClassObject<ClassProperties> {
    let ce = ClassEntry::new(50, "Point", ext_php_rs::flags::ClassFlags::from_bits_retain(0), None, vec![]);
    let label = match label {
        Some(l) => text(l),
        None => Zval::new(),
    };
    ZendClassObject {
        obj: ClassProperties {
            props: vec![
                ("x".to_string(), Property::field(FieldValue::Long(x))),
                ("broken".to_string(), Property::method(None, false)),
                ("label".to_string(), Property::method(Some(label), true)),
            ],
        },
        std: ZendObject::new(&ce, 3),
    }
}

fn field_x(obj: &ZendClassObject<ClassProperties>) -> Option<i64> {
    let mut z = Zval::new();
    obj.obj.get_prop("x", &mut z).unwrap();
    z.long()
}

fn name(s: &str) -> ZendStr {
    ZendStr::from_str(s, false)
}

#[test]
fn declared_properties_read_through_the_rust_value() {
    let mut eg = ExecutorGlobals::new();
    let obj = point(4, Some("p"));
    assert_eq!(ZendObjectHandlers::read_property(&mut eg, &obj, &name("x")).long(), Some(4));
    assert_eq!(ZendObjectHandlers::read_property(&mut eg, &obj, &name("label")).string().unwrap(), "p");
    assert!(!eg.has_exception());
}

#[test]
fn failing_getter_throws_and_reads_null() {
    let mut eg = ExecutorGlobals::new();
    let obj = point(4, None);
    let v = ZendObjectHandlers::read_property(&mut eg, &obj, &name("broken"));
    assert!(v.is_null());
    let e = eg.take_exception().unwrap();
    assert_eq!(e.get_class_name().unwrap(), "Exception");
    assert_eq!(e.get_property::<String>("message").unwrap(), "No getter available for this property.");
}

#[test]
fn other_properties_use_the_object_table() {
    let mut eg = ExecutorGlobals::new();
    let mut obj = point(1, None);
    assert!(ZendObjectHandlers::read_property(&mut eg, &obj, &name("dyn")).is_null());
    let mut v = Zval::new();
    v.set_long(9);
    ZendObjectHandlers::write_property(&mut eg, &mut obj, &name("dyn"), &v);
    assert_eq!(ZendObjectHandlers::read_property(&mut eg, &obj, &name("dyn")).long(), Some(9));
    assert_eq!(obj.std.get_property::<i64>("dyn").unwrap(), 9);
    assert!(!eg.has_exception());
}

#[test]
fn writes_to_declared_properties_go_to_the_setter() {
    let mut eg = ExecutorGlobals::new();
    let mut obj = point(1, None);
    let mut v = Zval::new();
    v.set_long(12);
    ZendObjectHandlers::write_property(&mut eg, &mut obj, &name("x"), &v);
    assert_eq!(field_x(&obj), Some(12));
    assert!(obj.std.get_properties().unwrap().is_empty());
    ZendObjectHandlers::write_property(&mut eg, &mut obj, &name("label"), &text("new"));
    assert_eq!(ZendObjectHandlers::read_property(&mut eg, &obj, &name("label")).string().unwrap(), "new");
    assert!(!eg.has_exception());
    ZendObjectHandlers::write_property(&mut eg, &mut obj, &name("broken"), &v);
    let e = eg.take_exception().unwrap();
    assert_eq!(e.get_property::<String>("message").unwrap(), "No setter available for this property.");
}

#[test]
fn invalid_names_throw() {
    let mut eg = ExecutorGlobals::new();
    let obj = point(1, None);
    let bad = ZendStr::new(&[0xff, 0xfe], false);
    assert!(ZendObjectHandlers::read_property(&mut eg, &obj, &bad).is_null());
    let e = eg.take_exception().unwrap();
    assert_eq!(e.get_property::<String>("message").unwrap(), "Invalid property name given");
}

#[test]
fn property_checks_in_three_modes() {
    let mut eg = ExecutorGlobals::new();
    let mut obj = point(0, None);
    // `x` is 0: set (not null) but not true; `label` is null; both exist.
    assert_eq!(ZendObjectHandlers::has_property(&mut eg, &obj, &name("x"), 0), 1);
    assert_eq!(ZendObjectHandlers::has_property(&mut eg, &obj, &name("x"), 1), 0);
    assert_eq!(ZendObjectHandlers::has_property(&mut eg, &obj, &name("x"), 2), 1);
    assert_eq!(ZendObjectHandlers::has_property(&mut eg, &obj, &name("label"), 0), 0);
    assert_eq!(ZendObjectHandlers::has_property(&mut eg, &obj, &name("label"), 2), 1);
    assert_eq!(ZendObjectHandlers::has_property(&mut eg, &obj, &name("missing"), 2), 0);
    assert!(!eg.has_exception());
    obj.std.set_property("missing", 5i64).unwrap();
    assert_eq!(ZendObjectHandlers::has_property(&mut eg, &obj, &name("missing"), 1), 1);
    assert_eq!(ZendObjectHandlers::has_property(&mut eg, &obj, &name("x"), 7), 0);
    let e = eg.take_exception().unwrap();
    assert_eq!(
        e.get_property::<String>("message").unwrap(),
        "Invalid value given for `has_set_exists` in struct `has_property` function."
    );
    assert_eq!(ZendObjectHandlers::has_property(&mut eg, &obj, &name("broken"), 0), 0);
    assert!(eg.has_exception());
}

#[test]
fn property_table_merges_readable_declared_properties() {
    let mut eg = ExecutorGlobals::new();
    let mut obj = point(7, Some("q"));
    obj.std.set_property("extra", true).unwrap();
    let table = ZendObjectHandlers::get_properties(&mut eg, &mut obj);
    assert_eq!(table.len(), 3);
    assert_eq!(table.get("extra").unwrap().bool(), Some(true));
    assert_eq!(table.get("x").unwrap().long(), Some(7));
    assert_eq!(table.get("label").unwrap().string().unwrap(), "q");
    assert!(table.get("broken").is_none());
    assert!(!eg.has_exception());
}

#[test]
fn prop_fields_convert_through_zvals() {
    use_prop();
}

fn use_prop() {
    let mut n: i64 = 3;
    let mut z = Zval::new();
    Prop::get(&n, &mut z).unwrap();
    assert_eq!(z.long(), Some(3));
    let mut w = Zval::new();
    w.set_long(8);
    Prop::set(&mut n, &w).unwrap();
    assert_eq!(n, 8);
    w.set_bool(true);
    assert_eq!(Prop::set(&mut n, &w), Err(Error::ZvalConversion(DataType::True)));
    assert_eq!(n, 8);
    let mut s = String::from("a");
    w.set_string("b", false).unwrap();
    Prop::set(&mut s, &w).unwrap();
    assert_eq!(s, "b");
    let mut small: u32 = 1;
    w.set_long(-1);
    assert!(Prop::set(&mut small, &w).is_err());
}

#[test]
fn field_property_keeps_its_type() {
    let mut prop = Property::field(FieldValue::Int(500));
    prop.set(&long(100)).unwrap();
    let mut z = Zval::new();
    prop.get(&mut z).unwrap();
    assert_eq!(z.long(), Some(100));
    assert_eq!(
        prop.set(&text("x")),
        Err("Failed to set property value: ZvalConversion(String)".to_string())
    );
    let mut z = Zval::new();
    prop.get(&mut z).unwrap();
    assert_eq!(z.long(), Some(100));
    assert!(prop.set(&long(1 << 40)).is_err());
    let mut flag = Property::field(FieldValue::Bool(false));
    assert_eq!(
        flag.set(&Zval::new()),
        Err("Failed to set property value: ZvalConversion(Null)".to_string())
    );
}

#[test]
fn writes_to_fields_of_another_type_throw() {
    let mut eg = ExecutorGlobals::new();
    let mut obj = point(5, None);
    ZendObjectHandlers::write_property(&mut eg, &mut obj, &name("x"), &text("x"));
    assert_eq!(field_x(&obj), Some(5));
    let e = eg.take_exception().unwrap();
    assert_eq!(
        e.get_property::<String>("message").unwrap(),
        "Failed to set property value: ZvalConversion(String)"
    );
}
