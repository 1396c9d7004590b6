use ext_php_rs::class::ClassEntry;
use ext_php_rs::class_builder::ClassBuilder;
use ext_php_rs::error::Error;
use ext_php_rs::exceptions::{throw, throw_with_code, PhpException};
use ext_php_rs::flags::{ClassFlags, ZEND_ACC_ABSTRACT};
use ext_php_rs::globals::ExecutorGlobals;

#[test]
fn throwing_an_interface_fails() {
    let mut eg = ExecutorGlobals::new();
    let r = throw(&mut eg, &ClassEntry::throwable(), "nope");
    match r {
        Err(Error::InvalidException(flags)) => assert!(flags.bits() & 1 == 1),
        other => panic!("unexpected {:?}", other),
    }
    assert!(!eg.has_exception());
    assert_eq!(eg.next_handle, 1);
}

#[test]
fn throwing_an_abstract_class_fails() {
    let (ce, _) = ClassBuilder::new("Base")
        .flags(ClassFlags::from_bits_retain(ZEND_ACC_ABSTRACT))
        .build(20)
        .unwrap();
    let mut eg = ExecutorGlobals::new();
    assert!(matches!(throw(&mut eg, &ce, "x"), Err(Error::InvalidException(_))));
    assert!(!eg.has_exception());
}

#[test]
fn message_with_nul_fails() {
    let mut eg = ExecutorGlobals::new();
    assert_eq!(throw(&mut eg, &ClassEntry::exception(), "a\0b"), Err(Error::InvalidCString));
    assert!(!eg.has_exception());
}

#[test]
fn thrown_exception_is_pending_with_message_and_code() {
    let mut eg = ExecutorGlobals::new();
    assert_eq!(throw_with_code(&mut eg, &ClassEntry::type_error(), 7, "bad type"), Ok(()));
    assert!(eg.has_exception());
    assert_eq!(eg.next_handle, 2);
    let e = eg.take_exception().unwrap();
    assert!(!eg.has_exception());
    assert_eq!(e.get_class_name().unwrap(), "TypeError");
    assert!(e.instance_of(&ClassEntry::error()));
    assert!(e.instance_of(&ClassEntry::throwable()));
    assert_eq!(e.get_id(), 1);
    assert_eq!(e.get_property::<String>("message").unwrap(), "bad type");
    assert_eq!(e.get_property::<i64>("code").unwrap(), 7);
}

#[test]
fn code_zero_is_not_written() {
    let mut eg = ExecutorGlobals::new();
    throw(&mut eg, &ClassEntry::exception(), "m").unwrap();
    let e = eg.take_exception().unwrap();
    assert_eq!(e.get_property::<i64>("code"), Err(Error::InvalidProperty));
}

#[test]
fn pending_exception_becomes_previous() {
    let mut eg = ExecutorGlobals::new();
    throw(&mut eg, &ClassEntry::exception(), "first").unwrap();
    PhpException::new("second".to_string(), 2, &ClassEntry::value_error()).throw(&mut eg).unwrap();
    let e = eg.take_exception().unwrap();
    assert_eq!(e.get_class_name().unwrap(), "ValueError");
    assert_eq!(e.get_id(), 2);
    let prev = e.get_properties().unwrap().get("previous").unwrap();
    let prev = prev.object().unwrap();
    assert_eq!(prev.get_class_name().unwrap(), "Exception");
    assert_eq!(prev.get_property::<String>("message").unwrap(), "first");
}

#[test]
fn throw_if_exception_hands_the_exception_over() {
    let mut eg = ExecutorGlobals::new();
    assert!(eg.throw_if_exception().is_ok());
    PhpException::default("boom".to_string()).throw(&mut eg).unwrap();
    let e = eg.throw_if_exception().unwrap_err();
    assert_eq!(e.get_property::<String>("message").unwrap(), "boom");
    assert!(eg.throw_if_exception().is_ok());
}

#[test]
fn exception_of_a_registered_class() {
    let (ce, _) = ClassBuilder::new("MyError").extends(&ClassEntry::exception()).build(30).unwrap();
    let mut eg = ExecutorGlobals::new();
    PhpException::from_class("custom".to_string(), &ce).throw(&mut eg).unwrap();
    let e = eg.take_exception().unwrap();
    assert!(e.is_instance(&ce));
    assert!(!e.is_instance(&ClassEntry::exception()));
    assert!(e.instance_of(&ClassEntry::exception()));
}
