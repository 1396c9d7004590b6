use ext_php_rs::args::Arg;
use ext_php_rs::class::ClassEntry;
use ext_php_rs::class_builder::ClassBuilder;
use ext_php_rs::error::Error;
use ext_php_rs::flags::{
    ClassFlags, DataType, MethodFlags, PropertyFlags, IS_LONG, ZEND_ACC_ABSTRACT,
    ZEND_ACC_INTERFACE, ZEND_ACC_PUBLIC, ZEND_ACC_STATIC, ZEND_TYPE_NULLABLE_BIT,
};
use ext_php_rs::function::FunctionBuilder;
use ext_php_rs::module::{ModuleBuilder, MODULE_ENTRY_SIZE, ZEND_MODULE_API_NO};
use ext_php_rs::zend_type::{ZendType, ZEND_SEND_BY_REF_BIT};

#[test]
fn function_builder_records_required_count_and_types() {
    let f = FunctionBuilder::new("hello_world", 0x1000)
        .arg(Arg::new("name".to_string(), DataType::String))
        .not_required()
        .arg(Arg::new("times".to_string(), DataType::Long).allow_null().default("1".to_string()))
        .return_type(DataType::String, false, true)
        .build();
    assert_eq!(f.fname.as_deref(), Some("hello_world"));
    assert_eq!(f.handler, Some(0x1000));
    assert_eq!(f.num_args, 2);
    assert_eq!(f.flags, 0);
    assert_eq!(f.arg_info.len(), 3);
    // The header: one required argument, a nullable string return type.
    assert_eq!(f.arg_info[0].name, "1");
    assert_eq!(f.arg_info[0].type_.type_mask, (1u32 << 6) | ZEND_TYPE_NULLABLE_BIT);
    assert_eq!(f.arg_info[0].default_value, None);
    assert_eq!(f.arg_info[1].name, "name");
    assert_eq!(f.arg_info[1].type_.type_mask, 1u32 << 6);
    assert_eq!(f.arg_info[2].name, "times");
    assert_eq!(f.arg_info[2].type_.type_mask, (1u32 << IS_LONG) | ZEND_TYPE_NULLABLE_BIT);
    assert_eq!(f.arg_info[2].default_value.as_deref(), Some("1"));
}

#[test]
fn function_builder_without_optional_arguments_requires_all() {
    let f = FunctionBuilder::new("f", 1)
        .arg(Arg::new("a".to_string(), DataType::Long).as_ref())
        .arg(Arg::new("b".to_string(), DataType::Object(Some("Foo"))))
        .build();
    assert_eq!(f.arg_info[0].name, "2");
    assert_eq!(f.arg_info[0].type_.type_mask, 0);
    assert_eq!(f.arg_info[1].type_.type_mask, (1u32 << IS_LONG) | ZEND_SEND_BY_REF_BIT);
    assert_eq!(f.arg_info[2].type_.class_name.as_deref(), Some("Foo"));
    assert_eq!(f.num_args, 2);
    let t = ZendType::empty(true, false);
    assert_eq!(t.type_mask, ZEND_SEND_BY_REF_BIT);
}

#[test]
fn zend_type_refuses_class_name_with_nul() {
    assert!(ZendType::empty_from_type(DataType::Object(Some("Fo\0o")), false, false, false).is_none());
    let t = ZendType::empty_from_type(DataType::Object(Some("Foo")), false, false, false).unwrap();
    assert_eq!(t.class_name.as_deref(), Some("Foo"));
    let f = FunctionBuilder::new("g", 2)
        .arg(Arg::new("o".to_string(), DataType::Object(Some("Fo\0o"))))
        .build();
    assert_eq!(f.arg_info[1].type_.class_name, None);
    assert_eq!(f.arg_info[1].type_.type_mask, 0);
}

#[test]
fn module_builder_closes_function_list() {
    let f = FunctionBuilder::new("a", 7).build();
    let m = ModuleBuilder::new("ext-name", "0.1.0")
        .startup_function(11)
        .shutdown_function(12)
        .info_function(13)
        .function(f)
        .build();
    assert_eq!(m.size, MODULE_ENTRY_SIZE);
    assert_eq!(m.zend_api, ZEND_MODULE_API_NO);
    assert_eq!(m.name, "ext-name");
    assert_eq!(m.version, "0.1.0");
    assert_eq!(m.build_id, "API20200930,NTS");
    assert_eq!(m.module_startup_func, Some(11));
    assert_eq!(m.module_shutdown_func, Some(12));
    assert_eq!(m.info_func, Some(13));
    assert_eq!(m.functions.len(), 2);
    assert_eq!(m.functions[0].fname.as_deref(), Some("a"));
    assert_eq!(m.functions[1].fname, None);
    assert_eq!(m.functions[1].handler, None);
    assert!(m.functions[1].arg_info.is_empty());
    let boxed = m.into_raw();
    assert_eq!(boxed.functions.len(), 2);
}

#[test]
fn module_builder_request_functions_fill_request_slots() {
    let m = ModuleBuilder::new("ext", "1").request_startup_function(5).request_shutdown_function(6).build();
    assert_eq!(m.request_startup_func, Some(5));
    assert_eq!(m.request_shutdown_func, Some(6));
    assert_eq!(m.module_startup_func, None);
    assert_eq!(m.module_shutdown_func, None);
    assert_eq!(m.functions.len(), 1);
}

#[test]
fn class_builder_registers_entry_and_members() {
    let iface = ClassEntry::throwable();
    let parent = ClassEntry::exception();
    let method = FunctionBuilder::new("run", 3).build();
    let (ce, members) = ClassBuilder::new("MyException")
        .extends(&parent)
        .implements(&iface)
        .method(method, MethodFlags::from_bits_retain(ZEND_ACC_PUBLIC | ZEND_ACC_STATIC))
        .property("count", 5i64, PropertyFlags::from_bits_retain(ZEND_ACC_PUBLIC))
        .constant("LIMIT", 10i64)
        .unwrap()
        .flags(ClassFlags::from_bits_retain(0))
        .build(42)
        .unwrap();
    assert_eq!(ce.id, 42);
    assert_eq!(ce.name(), "MyException");
    assert!(ce.instance_of(&parent));
    assert!(ce.instance_of(&iface));
    assert!(!ce.is_interface());
    assert_eq!(members.methods.len(), 2);
    assert_eq!(members.methods[0].flags, ZEND_ACC_PUBLIC | ZEND_ACC_STATIC);
    assert_eq!(members.methods[1].fname, None);
    assert_eq!(members.properties.len(), 1);
    assert_eq!(members.properties[0].name, "count");
    assert_eq!(members.properties[0].default.long(), Some(5));
    assert_eq!(members.constants.len(), 1);
    assert_eq!(members.constants[0].value.long(), Some(10));
}

#[test]
fn class_builder_rejects_names_with_nul() {
    let r = ClassBuilder::new("Bad\0Name").build(1);
    assert_eq!(r.err(), Some(Error::InvalidCString));
    let r = ClassBuilder::new("Good").property("a\0b", 1i64, PropertyFlags::from_bits_retain(0)).build(1);
    assert_eq!(r.err(), Some(Error::InvalidCString));
    let r = ClassBuilder::new("Good").constant("C\0", 1i64).unwrap().build(1);
    assert_eq!(r.err(), Some(Error::InvalidCString));
}

#[test]
fn class_builder_constant_that_does_not_convert() {
    let r = ClassBuilder::new("C").constant("BIG", u64::MAX);
    assert_eq!(r.err(), Some(Error::IntegerOverflow));
}

#[test]
fn class_flags_of_registered_class() {
    let (ce, _) = ClassBuilder::new("Shape")
        .flags(ClassFlags::from_bits_retain(ZEND_ACC_ABSTRACT))
        .build(9)
        .unwrap();
    assert!(ce.flags().contains(ClassFlags::from_bits_retain(ZEND_ACC_ABSTRACT)));
    let (iface, _) = ClassBuilder::new("Marker")
        .flags(ClassFlags::from_bits_retain(ZEND_ACC_INTERFACE))
        .build(10)
        .unwrap();
    assert!(iface.is_interface());
}

#[test]
fn module_builder_lists_functions_in_order_then_the_end_entry() {
    let m = ModuleBuilder::new("ext", "2.0")
        .function(FunctionBuilder::new("first", 1).build())
        .function(FunctionBuilder::new("second", 2).build())
        .build();
    assert_eq!(m.name, "ext");
    assert_eq!(m.version, "2.0");
    assert_eq!(m.functions.len(), 3);
    assert_eq!(m.functions[0].fname.as_deref(), Some("first"));
    assert_eq!(m.functions[1].fname.as_deref(), Some("second"));
    assert_eq!(m.functions[2].fname, None);
    assert_eq!(m.functions[2].handler, None);
    assert_eq!(m.functions[2].num_args, 0);
    assert_eq!(m.functions[2].flags, 0);
}
