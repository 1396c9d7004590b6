use ext_php_rs::array_key::ArrayKey;
use ext_php_rs::error::Error;
use std::convert::TryInto;

#[test]
fn test_string_try_from_array_key() {
    let key = ArrayKey::String("test".to_string());
    let result: Result<String, _> = key.try_into();
    assert!(result.is_ok());
    assert_eq!(result.unwrap(), "test".to_string());

    let key = ArrayKey::Str("test");
    let result: Result<String, _> = key.try_into();
    assert!(result.is_ok());
    assert_eq!(result.unwrap(), "test".to_string());

    let key = ArrayKey::Long(42);
    let result: Result<String, _> = key.try_into();
    assert_eq!(result.unwrap(), "42".to_string());

    let key = ArrayKey::String("42".to_string());
    let result: Result<String, _> = key.try_into();
    assert!(result.is_ok());
    assert_eq!(result.unwrap(), "42".to_string());

    let key = ArrayKey::Str("123");
    let result: Result<i64, _> = key.try_into();
    assert!(result.is_ok());
    assert_eq!(result.unwrap(), 123);
}

#[test]
fn test_i64_try_from_array_key() {
    let key = ArrayKey::Long(42);
    let result: Result<i64, _> = key.try_into();
    assert!(result.is_ok());
    assert_eq!(result.unwrap(), 42);

    let key = ArrayKey::String("42".to_string());
    let result: Result<i64, _> = key.try_into();
    assert!(result.is_ok());
    assert_eq!(result.unwrap(), 42);

    let key = ArrayKey::Str("123");
    let result: Result<i64, _> = key.try_into();
    assert!(result.is_ok());
    assert_eq!(result.unwrap(), 123);

    let key = ArrayKey::String("not a number".to_string());
    let result: Result<i64, _> = key.try_into();
    assert!(result.is_err());
    assert!(matches!(result.unwrap_err(), Error::InvalidProperty));
}

#[test]
fn numeric_strings_become_integer_keys() {
    assert_eq!(ArrayKey::from("17"), ArrayKey::Long(17));
    assert_eq!(ArrayKey::from("-3"), ArrayKey::Long(-3));
    assert_eq!(ArrayKey::from("x1"), ArrayKey::Str("x1"));
    assert_eq!(ArrayKey::from("9223372036854775808"), ArrayKey::Str("9223372036854775808"));
    assert_eq!(ArrayKey::from(String::from("0")), ArrayKey::Long(0));
    assert_eq!(ArrayKey::from(5i64), ArrayKey::Long(5));
    assert!(ArrayKey::Long(1).is_long());
    assert!(!ArrayKey::Str("a").is_long());
    assert_eq!(ArrayKey::Long(-12).to_string(), "-12");
}

#[test]
fn integer_text_reads_back_as_integer_key() {
    for v in [i64::MIN, -1, 0, 7, 42, i64::MAX] {
        assert_eq!(ArrayKey::from_string(v.to_string()), ArrayKey::Long(v));
        let text = v.to_string();
        assert_eq!(ArrayKey::from_str(&text), ArrayKey::Long(v));
    }
    assert_eq!(ArrayKey::from_string("9223372036854775808".to_string()), ArrayKey::String("9223372036854775808".to_string()));
    assert_eq!(ArrayKey::from_str("007"), ArrayKey::Long(7));
}
