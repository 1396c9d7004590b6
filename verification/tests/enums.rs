use ext_php_rs::flags::{
    DataType, IS_ARRAY, IS_ARRAY_EX, IS_CALLABLE, IS_CONSTANT_AST, IS_CONSTANT_AST_EX, IS_DOUBLE,
    IS_FALSE, IS_INTERNED_STRING_EX, IS_LONG, IS_NULL, IS_OBJECT, IS_OBJECT_EX, IS_REFERENCE,
    IS_REFERENCE_EX, IS_RESOURCE, IS_RESOURCE_EX, IS_STRING, IS_STRING_EX, IS_TRUE, IS_UNDEF,
    IS_VOID,
};
use std::convert::TryFrom;

#[test]
fn test_datatype() {
    assert_eq!(DataType::try_from(IS_UNDEF), Ok(DataType::Undef));
    assert_eq!(DataType::try_from(IS_NULL), Ok(DataType::Null));
    assert_eq!(DataType::try_from(IS_FALSE), Ok(DataType::False));
    assert_eq!(DataType::try_from(IS_TRUE), Ok(DataType::True));
    assert_eq!(DataType::try_from(IS_LONG), Ok(DataType::Long));
    assert_eq!(DataType::try_from(IS_DOUBLE), Ok(DataType::Double));
    assert_eq!(DataType::try_from(IS_STRING), Ok(DataType::String));
    assert_eq!(DataType::try_from(IS_ARRAY), Ok(DataType::Array));
    assert_eq!(DataType::try_from(IS_OBJECT), Ok(DataType::Object(None)));
    assert_eq!(DataType::try_from(IS_RESOURCE), Ok(DataType::Resource));
    assert_eq!(DataType::try_from(IS_REFERENCE), Ok(DataType::Reference));
    assert_eq!(DataType::try_from(IS_CONSTANT_AST), Ok(DataType::ConstantExpression));
    assert_eq!(DataType::try_from(IS_CALLABLE), Ok(DataType::Callable));
    assert_eq!(DataType::try_from(IS_VOID), Ok(DataType::Void));

    assert_eq!(DataType::try_from(IS_INTERNED_STRING_EX), Ok(DataType::String));
    assert_eq!(DataType::try_from(IS_STRING_EX), Ok(DataType::String));
    assert_eq!(DataType::try_from(IS_ARRAY_EX), Ok(DataType::Array));
    assert_eq!(DataType::try_from(IS_OBJECT_EX), Ok(DataType::Object(None)));
    assert_eq!(DataType::try_from(IS_RESOURCE_EX), Ok(DataType::Resource));
    assert_eq!(DataType::try_from(IS_REFERENCE_EX), Ok(DataType::Reference));
    assert_eq!(DataType::try_from(IS_CONSTANT_AST_EX), Ok(DataType::ConstantExpression));
}

#[test]
fn as_u32_of_each_type() {
    assert_eq!(DataType::Long.as_u32(), IS_LONG);
    assert_eq!(DataType::Object(Some("Foo")).as_u32(), IS_OBJECT);
    assert_eq!(DataType::Reference.as_u32(), IS_REFERENCE);
    assert_eq!(DataType::from(DataType::Reference.as_u32()), DataType::Reference);
    assert_eq!(DataType::from(DataType::Resource.as_u32()), DataType::Resource);
    assert_eq!(DataType::default(), DataType::Void);
}

#[test]
fn unknown_tag_reads_as_undef() {
    assert_eq!(DataType::from(16u32), DataType::Undef);
    assert_eq!(DataType::from(13u32), DataType::Ptr);
    assert_eq!(DataType::from(12u32), DataType::Callable);
}
