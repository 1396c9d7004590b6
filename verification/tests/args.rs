use ext_php_rs::args::{Arg, ArgParser};
use ext_php_rs::error::Error;
use ext_php_rs::execute_data::ExecuteData;
use ext_php_rs::flags::DataType;
use ext_php_rs::globals::ExecutorGlobals;
use ext_php_rs::string::ZendStr;
use ext_php_rs::zval::Zval;

fn call(values: &[i64]) -> ExecuteData {
    let args = values
        .iter()
        .map(|v| {
            let mut z = Zval::new();
            z.set_long(*v);
            z
        })
        .collect();
    ExecuteData { function_name: "f".to_string(), this: Zval::new(), args }
}

#[test]
fn parser_binds_values_in_order() {
    let ex = call(&[4, 5]);
    let args = ArgParser::new(&ex)
        .arg(Arg::new("a".to_string(), DataType::Long))
        .not_required()
        .arg(Arg::new("b".to_string(), DataType::Long))
        .arg(Arg::new("c".to_string(), DataType::Long))
        .parse(&mut ExecutorGlobals::new())
        .unwrap();
    assert_eq!(args.len(), 3);
    assert_eq!(args[0].val::<i64>(), Some(4));
    assert_eq!(args[1].val::<i64>(), Some(5));
    assert!(args[2].zval().is_none());
    assert_eq!(args[2].val::<i64>(), None);
    assert_eq!(args[0].name(), "a");
}

#[test]
fn wrong_argument_counts_are_rejected() {
    let mut eg = ExecutorGlobals::new();
    let ex = call(&[]);
    let r = ArgParser::new(&ex).arg(Arg::new("a".to_string(), DataType::Long)).parse(&mut eg);
    assert_eq!(r.err(), Some(Error::IncorrectArguments(0, 1)));
    let e = eg.take_exception().unwrap();
    assert_eq!(e.get_class_name().unwrap(), "ArgumentCountError");
    assert_eq!(e.get_property::<String>("message").unwrap(), "f() expects exactly 1 argument, 0 given");
    let ex = call(&[1, 2]);
    let r = ArgParser::new(&ex).arg(Arg::new("a".to_string(), DataType::Long)).parse(&mut eg);
    assert_eq!(r.err(), Some(Error::IncorrectArguments(2, 1)));
    let e = eg.take_exception().unwrap();
    assert_eq!(e.get_property::<String>("message").unwrap(), "f() expects exactly 1 argument, 2 given");
    let ex = call(&[1]);
    let r = ArgParser::new(&ex)
        .arg(Arg::new("a".to_string(), DataType::Long))
        .not_required()
        .arg(Arg::new("b".to_string(), DataType::Long))
        .parse(&mut eg);
    assert!(r.is_ok());
    assert!(!eg.has_exception());
}

#[test]
fn argument_count_errors_name_the_missed_bound() {
    let mut eg = ExecutorGlobals::new();
    let ex = call(&[]);
    let r = ArgParser::new(&ex)
        .arg(Arg::new("a".to_string(), DataType::Long))
        .arg(Arg::new("b".to_string(), DataType::Long))
        .not_required()
        .arg(Arg::new("c".to_string(), DataType::Long))
        .parse(&mut eg);
    assert_eq!(r.err(), Some(Error::IncorrectArguments(0, 2)));
    let e = eg.take_exception().unwrap();
    assert_eq!(e.get_property::<String>("message").unwrap(), "f() expects at least 2 arguments, 0 given");
    let ex = call(&[1, 2, 3, 4]);
    let r = ArgParser::new(&ex)
        .arg(Arg::new("a".to_string(), DataType::Long))
        .not_required()
        .arg(Arg::new("b".to_string(), DataType::Long))
        .parse(&mut eg);
    assert_eq!(r.err(), Some(Error::IncorrectArguments(4, 1)));
    let e = eg.take_exception().unwrap();
    assert_eq!(e.get_property::<String>("message").unwrap(), "f() expects at most 2 arguments, 4 given");
}

#[test]
fn expected_types_of_arguments() {
    assert_eq!(Arg::new("s".to_string(), DataType::String).expected_type(), 4);
    assert_eq!(Arg::new("s".to_string(), DataType::String).allow_null().expected_type(), 5);
    assert_eq!(Arg::new("o".to_string(), DataType::Object(None)).expected_type(), 18);
}

#[test]
fn invalid_utf8_strings() {
    let s = ZendStr::new(&[0xc3, 0x28], false);
    assert_eq!(s.as_str().err(), Some(Error::InvalidUtf8));
    assert_eq!(s.len(), 2);
    let mut z = Zval::new();
    z.set_zend_string(s);
    assert_eq!(z.str(), None);
    assert!(z.zend_str().is_some());
}
