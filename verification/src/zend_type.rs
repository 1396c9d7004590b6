//! Type descriptors of function arguments and return values.

use vstd::prelude::*;
use vstd::utf8::*;

use crate::string::{contains_nul, has_nul};
use crate::flags::{
    spec_as_u32, DataType, IS_FALSE, IS_TRUE, IS_BOOL_CAST, IS_MIXED, MAY_BE_ANY, MAY_BE_BOOL, ZEND_IS_VARIADIC_BIT,
    ZEND_TYPE_NAME_BIT, ZEND_TYPE_NULLABLE_BIT,
};

verus! {

/// Bit of a type mask set when the argument is passed by reference
/// (`1 << _ZEND_SEND_MODE_SHIFT`).
pub const ZEND_SEND_BY_REF_BIT: u32 = 16777216;

/// An internal Zend type: a type mask, and the class name when the type
/// names a class.
#[derive(Debug)]
pub struct ZendType {
    pub class_name: Option<String>,
    pub type_mask: u32,
}

/// Abstract Zend type.
pub struct ZendTypeModel {
    pub class_name: Option<Seq<char>>,
    pub type_mask: u32,
}

impl View for ZendType {
    type V = ZendTypeModel;

    open spec fn view(&self) -> ZendTypeModel {
        ZendTypeModel {
            class_name: match &self.class_name {
                Some(n) => Some(n@),
                None => None,
            },
            type_mask: self.type_mask,
        }
    }
}

/// Whether a data type names a class whose name holds a NUL byte, which no
/// Zend type can carry.
pub open spec fn class_name_has_nul(t: DataType) -> bool {
    match t {
        DataType::Object(Some(class)) => has_nul(encode_utf8(class@)),
        _ => false,
    }
}

/// The type `ZendType::empty_from_type` builds: a class type for an object
/// of a named class, a primitive type otherwise.
pub open spec fn spec_type_for(
    t: DataType,
    pass_by_ref: bool,
    is_variadic: bool,
    allow_null: bool,
) -> ZendTypeModel {
    match t {
        DataType::Object(Some(class)) => ZendTypeModel {
            class_name: Some(class@),
            type_mask: ZEND_TYPE_NAME_BIT | (if allow_null {
                ZEND_TYPE_NULLABLE_BIT
            } else {
                0
            }) | spec_arg_info_flags(pass_by_ref, is_variadic),
        },
        _ => ZendTypeModel {
            class_name: None,
            type_mask: spec_type_init_code(t, pass_by_ref, is_variadic, allow_null),
        },
    }
}

/// The flags of `_ZEND_ARG_INFO_FLAGS`.
pub open spec fn spec_arg_info_flags(pass_by_ref: bool, is_variadic: bool) -> u32 {
    (if pass_by_ref {
        ZEND_SEND_BY_REF_BIT
    } else {
        0
    }) | (if is_variadic {
        ZEND_IS_VARIADIC_BIT
    } else {
        0
    })
}

/// The mask of `ZEND_TYPE_INIT_CODE`.
pub open spec fn spec_type_init_code(
    t: DataType,
    pass_by_ref: bool,
    is_variadic: bool,
    allow_null: bool,
) -> u32 {
    let code = spec_as_u32(t);
    (if code == IS_BOOL_CAST {
        MAY_BE_BOOL
    } else if code == IS_MIXED {
        MAY_BE_ANY
    } else {
        1u32 << code
    }) | (if allow_null {
        ZEND_TYPE_NULLABLE_BIT
    } else {
        0
    }) | spec_arg_info_flags(pass_by_ref, is_variadic)
}

/// The type bits of a primitive type's mask are the set of PHP value types
/// it admits: false and true for `bool`, every value type (null, false,
/// true, long, double, string, array, object, resource) for `mixed`, and
/// the type's own bit otherwise; a nullable type adds the nullable bit, and
/// the passing mode and variadic flag add theirs.
pub proof fn law_type_mask_admits_php_types(
    t: DataType,
    pass_by_ref: bool,
    is_variadic: bool,
    allow_null: bool,
)
    ensures
        t is Bool ==> spec_type_init_code(t, pass_by_ref, is_variadic, allow_null) == ((1u32
            << IS_FALSE) | (1u32 << IS_TRUE)) | (if allow_null {
            ZEND_TYPE_NULLABLE_BIT
        } else {
            0
        }) | spec_arg_info_flags(pass_by_ref, is_variadic),
        t is Bool ==> spec_type_for(t, pass_by_ref, is_variadic, allow_null).type_mask == ((1u32
            << IS_FALSE) | (1u32 << IS_TRUE)) | (if allow_null {
            ZEND_TYPE_NULLABLE_BIT
        } else {
            0
        }) | spec_arg_info_flags(pass_by_ref, is_variadic),
        t is Mixed ==> spec_type_init_code(t, pass_by_ref, is_variadic, allow_null) == ((1u32
            << 1u32) | (1u32 << 2u32) | (1u32 << 3u32) | (1u32 << 4u32) | (1u32 << 5u32) | (1u32
            << 6u32) | (1u32 << 7u32) | (1u32 << 8u32) | (1u32 << 9u32)) | (if allow_null {
            ZEND_TYPE_NULLABLE_BIT
        } else {
            0
        }) | spec_arg_info_flags(pass_by_ref, is_variadic),
        !(t is Bool) && !(t is Mixed) ==> spec_type_init_code(t, pass_by_ref, is_variadic, allow_null)
            == (1u32 << spec_as_u32(t)) | (if allow_null {
            ZEND_TYPE_NULLABLE_BIT
        } else {
            0
        }) | spec_arg_info_flags(pass_by_ref, is_variadic),
{
    assert(12u32 == ((1u32 << 2u32) | (1u32 << 3u32)) && 1022u32 == ((1u32 << 1u32) | (1u32 << 2u32)
        | (1u32 << 3u32) | (1u32 << 4u32) | (1u32 << 5u32) | (1u32 << 6u32) | (1u32 << 7u32) | (1u32
        << 8u32) | (1u32 << 9u32))) by (bit_vector);
}

impl ZendType {
    /// Builds an empty Zend type container.
    pub fn empty(pass_by_ref: bool, is_variadic: bool) -> (r: ZendType)
        ensures
            r.class_name is None,
            r.type_mask == spec_arg_info_flags(pass_by_ref, is_variadic),
    {
        ZendType { class_name: None, type_mask: Self::arg_info_flags(pass_by_ref, is_variadic) }
    }

    /// Creates a Zend type for a data type: a class type for an object of a
    /// named class, a primitive type otherwise. Returns `None` when the class
    /// name holds a NUL byte.
    pub fn empty_from_type(
        type_: DataType,
        pass_by_ref: bool,
        is_variadic: bool,
        allow_null: bool,
    ) -> (r: Option<ZendType>)
        ensures
            r is None <==> class_name_has_nul(type_),
            r matches Some(t) ==> t@ == spec_type_for(type_, pass_by_ref, is_variadic, allow_null),
    {
        match type_ {
            DataType::Object(Some(class)) => Self::empty_from_class_type(
                class,
                pass_by_ref,
                is_variadic,
                allow_null,
            ),
            _ => Some(Self::empty_from_primitive_type(type_, pass_by_ref, is_variadic, allow_null)),
        }
    }

    /// Creates a Zend type for an object of the named class, or `None` when
    /// the name holds a NUL byte.
    fn empty_from_class_type(
        class_name: &str,
        pass_by_ref: bool,
        is_variadic: bool,
        allow_null: bool,
    ) -> (r: Option<ZendType>)
        ensures
            r is None <==> has_nul(encode_utf8(class_name@)),
            r is Some ==> (r matches Some(t) && t.class_name matches Some(n) && n@ == class_name@
                && t.type_mask == (ZEND_TYPE_NAME_BIT | (if allow_null {
                ZEND_TYPE_NULLABLE_BIT
            } else {
                0
            }) | spec_arg_info_flags(pass_by_ref, is_variadic))),
    {
        if contains_nul(class_name.as_bytes()) {
            return None;
        }
        Some(
            ZendType {
                class_name: Some(class_name.to_owned()),
                type_mask: ZEND_TYPE_NAME_BIT | (if allow_null {
                    ZEND_TYPE_NULLABLE_BIT
                } else {
                    0
                }) | Self::arg_info_flags(pass_by_ref, is_variadic),
            },
        )
    }

    /// Creates a Zend type for a primitive PHP type.
    fn empty_from_primitive_type(
        type_: DataType,
        pass_by_ref: bool,
        is_variadic: bool,
        allow_null: bool,
    ) -> (r: ZendType)
        requires
            !(type_ matches DataType::Object(Some(_))),
        ensures
            r.class_name is None,
            r.type_mask == spec_type_init_code(type_, pass_by_ref, is_variadic, allow_null),
    {
        ZendType {
            class_name: None,
            type_mask: Self::type_init_code(type_, pass_by_ref, is_variadic, allow_null),
        }
    }

    /// Calculates the argument flags of the type (`_ZEND_ARG_INFO_FLAGS`).
    pub fn arg_info_flags(pass_by_ref: bool, is_variadic: bool) -> (r: u32)
        ensures
            r == spec_arg_info_flags(pass_by_ref, is_variadic),
    {
        (if pass_by_ref {
            ZEND_SEND_BY_REF_BIT
        } else {
            0
        }) | (if is_variadic {
            ZEND_IS_VARIADIC_BIT
        } else {
            0
        })
    }

    /// Calculates the mask of the type (`ZEND_TYPE_INIT_CODE`).
    pub fn type_init_code(
        type_: DataType,
        pass_by_ref: bool,
        is_variadic: bool,
        allow_null: bool,
    ) -> (r: u32)
        ensures
            r == spec_type_init_code(type_, pass_by_ref, is_variadic, allow_null),
    {
        let code = type_.as_u32();
        (if code == IS_BOOL_CAST {
            MAY_BE_BOOL
        } else if code == IS_MIXED {
            MAY_BE_ANY
        } else {
            1u32 << code
        }) | (if allow_null {
            ZEND_TYPE_NULLABLE_BIT
        } else {
            0
        }) | Self::arg_info_flags(pass_by_ref, is_variadic)
    }
}

} // verus!
