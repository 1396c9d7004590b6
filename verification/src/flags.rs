//! Type tags and bit flags of the Zend engine (PHP 8.0, 64-bit ABI).

use vstd::prelude::*;

verus! {

/// Zval type tag: undefined value.
pub const IS_UNDEF: u32 = 0;
/// Zval type tag: null.
pub const IS_NULL: u32 = 1;
/// Zval type tag: boolean false.
pub const IS_FALSE: u32 = 2;
/// Zval type tag: boolean true.
pub const IS_TRUE: u32 = 3;
/// Zval type tag: integer.
pub const IS_LONG: u32 = 4;
/// Zval type tag: floating point number.
pub const IS_DOUBLE: u32 = 5;
/// Zval type tag: string.
pub const IS_STRING: u32 = 6;
/// Zval type tag: array.
pub const IS_ARRAY: u32 = 7;
/// Zval type tag: object.
pub const IS_OBJECT: u32 = 8;
/// Zval type tag: resource.
pub const IS_RESOURCE: u32 = 9;
/// Zval type tag: reference.
pub const IS_REFERENCE: u32 = 10;
/// Zval type tag: constant expression.
pub const IS_CONSTANT_AST: u32 = 11;
/// Type-hint only: callable.
pub const IS_CALLABLE: u32 = 12;
/// Type-hint only: iterable.
pub const IS_ITERABLE: u32 = 13;
/// Type-hint only: void.
pub const IS_VOID: u32 = 14;
/// Type-hint only: static.
pub const IS_STATIC: u32 = 15;
/// Type-hint only: mixed.
pub const IS_MIXED: u32 = 16;
/// Internal type: indirect zval.
pub const IS_INDIRECT: u32 = 12;
/// Internal type: raw pointer.
pub const IS_PTR: u32 = 13;
/// Cast target: bool.
pub const IS_BOOL_CAST: u32 = 17;

/// Shift of the type flags inside `type_info`.
pub const Z_TYPE_FLAGS_SHIFT: u32 = 8;
/// Type flag: the value is reference counted.
pub const IS_TYPE_REFCOUNTED: u32 = 1;
/// Type flag: the value may take part in a reference cycle.
pub const IS_TYPE_COLLECTABLE: u32 = 2;

/// `type_info` of an interned string.
pub const IS_INTERNED_STRING_EX: u32 = 6;
/// `type_info` of a reference-counted string.
pub const IS_STRING_EX: u32 = 262;
/// `type_info` of an array.
pub const IS_ARRAY_EX: u32 = 775;
/// `type_info` of an object.
pub const IS_OBJECT_EX: u32 = 776;
/// `type_info` of a resource.
pub const IS_RESOURCE_EX: u32 = 265;
/// `type_info` of a reference.
pub const IS_REFERENCE_EX: u32 = 266;
/// `type_info` of a constant expression.
pub const IS_CONSTANT_AST_EX: u32 = 267;

/// Type mask: may be false or true.
pub const MAY_BE_BOOL: u32 = 12;
/// Type mask: may be any value.
pub const MAY_BE_ANY: u32 = 1022;
/// Type mask bit: the type names a class.
pub const ZEND_TYPE_NAME_BIT: u32 = 8388608;
/// Type mask bit: null is accepted.
pub const ZEND_TYPE_NULLABLE_BIT: u32 = 2;
/// Shift of the pass-by-reference mode inside an argument's type mask.
pub const ZEND_SEND_MODE_SHIFT: u32 = 24;
/// Type mask bit: the argument is variadic.
pub const ZEND_IS_VARIADIC_BIT: u32 = 67108864;

/// Alignment of the Zend memory manager.
pub const ZEND_MM_ALIGNMENT: u64 = 8;
/// Size in bytes of a zval.
pub const ZVAL_SIZE: u64 = 16;
/// Size in bytes of the engine's execute data record.
pub const EXECUTE_DATA_SIZE: u64 = 80;

/// Access flag: public.
pub const ZEND_ACC_PUBLIC: u32 = 1;
/// Access flag: protected.
pub const ZEND_ACC_PROTECTED: u32 = 2;
/// Access flag: private.
pub const ZEND_ACC_PRIVATE: u32 = 4;
/// Access flag: changed.
pub const ZEND_ACC_CHANGED: u32 = 8;
/// Access flag: static.
pub const ZEND_ACC_STATIC: u32 = 16;
/// Access flag: promoted constructor property.
pub const ZEND_ACC_PROMOTED: u32 = 32;
/// Access flag: final.
pub const ZEND_ACC_FINAL: u32 = 32;
/// Access flag: abstract.
pub const ZEND_ACC_ABSTRACT: u32 = 64;
/// Access flag: immutable.
pub const ZEND_ACC_IMMUTABLE: u32 = 128;
/// Access flag: has type hints.
pub const ZEND_ACC_HAS_TYPE_HINTS: u32 = 256;
/// Access flag: top level.
pub const ZEND_ACC_TOP_LEVEL: u32 = 512;
/// Access flag: preloaded.
pub const ZEND_ACC_PRELOADED: u32 = 1024;
/// Class flag: interface.
pub const ZEND_ACC_INTERFACE: u32 = 1;
/// Class flag: trait.
pub const ZEND_ACC_TRAIT: u32 = 2;
/// Class flag: anonymous class.
pub const ZEND_ACC_ANON_CLASS: u32 = 4;
/// Class flag: linked.
pub const ZEND_ACC_LINKED: u32 = 8;
/// Class flag: implicitly abstract.
pub const ZEND_ACC_IMPLICIT_ABSTRACT_CLASS: u32 = 16;
/// Class flag: uses guards.
pub const ZEND_ACC_USE_GUARDS: u32 = 2048;
/// Class flag: constants updated.
pub const ZEND_ACC_CONSTANTS_UPDATED: u32 = 4096;
/// Class flag: no dynamic properties.
pub const ZEND_ACC_NO_DYNAMIC_PROPERTIES: u32 = 8192;
/// Class flag: static variables in methods.
pub const ZEND_HAS_STATIC_IN_METHODS: u32 = 16384;
/// Class flag: property types resolved.
pub const ZEND_ACC_PROPERTY_TYPES_RESOLVED: u32 = 131072;
/// Class flag: reuse get_iterator.
pub const ZEND_ACC_REUSE_GET_ITERATOR: u32 = 262144;
/// Class flag: parent resolved.
pub const ZEND_ACC_RESOLVED_PARENT: u32 = 524288;
/// Class flag: interfaces resolved.
pub const ZEND_ACC_RESOLVED_INTERFACES: u32 = 1048576;
/// Class flag: unresolved variance.
pub const ZEND_ACC_UNRESOLVED_VARIANCE: u32 = 2097152;
/// Class flag: nearly linked.
pub const ZEND_ACC_NEARLY_LINKED: u32 = 4194304;
/// Class flag: has unlinked uses.
pub const ZEND_ACC_HAS_UNLINKED_USES: u32 = 8388608;
/// Function flag: deprecated.
pub const ZEND_ACC_DEPRECATED: u32 = 2048;
/// Function flag: returns a reference.
pub const ZEND_ACC_RETURN_REFERENCE: u32 = 4096;
/// Function flag: has a return type.
pub const ZEND_ACC_HAS_RETURN_TYPE: u32 = 8192;
/// Function flag: variadic.
pub const ZEND_ACC_VARIADIC: u32 = 16384;
/// Function flag: has a finally block.
pub const ZEND_ACC_HAS_FINALLY_BLOCK: u32 = 32768;
/// Function flag: early binding.
pub const ZEND_ACC_EARLY_BINDING: u32 = 65536;
/// Function flag: uses `$this`.
pub const ZEND_ACC_USES_THIS: u32 = 131072;
/// Function flag: call via trampoline.
pub const ZEND_ACC_CALL_VIA_TRAMPOLINE: u32 = 262144;
/// Function flag: never cache.
pub const ZEND_ACC_NEVER_CACHE: u32 = 524288;
/// Function flag: trait clone.
pub const ZEND_ACC_TRAIT_CLONE: u32 = 1048576;
/// Function flag: constructor.
pub const ZEND_ACC_CTOR: u32 = 2097152;
/// Function flag: closure.
pub const ZEND_ACC_CLOSURE: u32 = 4194304;
/// Function flag: fake closure.
pub const ZEND_ACC_FAKE_CLOSURE: u32 = 8388608;
/// Function flag: generator.
pub const ZEND_ACC_GENERATOR: u32 = 16777216;
/// Function flag: done pass two.
pub const ZEND_ACC_DONE_PASS_TWO: u32 = 33554432;
/// Function flag: heap runtime cache.
pub const ZEND_ACC_HEAP_RT_CACHE: u32 = 67108864;
/// Function flag: strict types.
pub const ZEND_ACC_STRICT_TYPES: u32 = 2147483648;
/// Constant flag: case sensitive.
pub const CONST_CS: u32 = 0;
/// Constant flag: persistent.
pub const CONST_PERSISTENT: u32 = 1;
/// Constant flag: no file cache.
pub const CONST_NO_FILE_CACHE: u32 = 2;
/// Constant flag: deprecated.
pub const CONST_DEPRECATED: u32 = 4;

/// Union of every bit a [`ZvalTypeFlags`] value may hold.
pub const ZVAL_TYPE_FLAGS_ALL: u32 = 783;
/// Union of every bit a [`ClassFlags`] value may hold.
pub const CLASS_FLAGS_ALL: u32 = 16678911;
/// Union of every bit a [`MethodFlags`] value may hold.
pub const METHOD_FLAGS_ALL: u32 = 2281701375;
/// Union of every bit a [`PropertyFlags`] value may hold.
pub const PROPERTY_FLAGS_ALL: u32 = 63;
/// Union of every bit a [`ConstantFlags`] value may hold.
pub const CONSTANT_FLAGS_ALL: u32 = 39;
/// Union of every bit a [`GlobalConstantFlags`] value may hold.
pub const GLOBAL_CONSTANT_FLAGS_ALL: u32 = 7;

/// Flags used for setting the type of a zval.
#[derive(Clone, Copy, PartialEq, Eq, Structural, Debug)]
pub struct ZvalTypeFlags {
    bits: u32,
}

impl View for ZvalTypeFlags {
    type V = u32;

    closed spec fn view(&self) -> u32 {
        self.bits
    }
}

impl ZvalTypeFlags {
    /// The empty set of flags.
    pub fn empty() -> (r: Self)
        ensures
            r@ == 0,
    {
        ZvalTypeFlags { bits: 0 }
    }

    /// The raw bits.
    pub fn bits(&self) -> (r: u32)
        ensures
            r == self@,
    {
        self.bits
    }

    /// Keeps the given bits, known or not.
    pub fn from_bits_retain(bits: u32) -> (r: Self)
        ensures
            r@ == bits,
    {
        ZvalTypeFlags { bits }
    }

    /// Keeps only the known bits.
    pub fn from_bits_truncate(bits: u32) -> (r: Self)
        ensures
            r@ == bits & ZVAL_TYPE_FLAGS_ALL,
    {
        ZvalTypeFlags { bits: bits & ZVAL_TYPE_FLAGS_ALL }
    }

    /// Whether every bit of `other` is set in `self`.
    pub fn contains(&self, other: Self) -> (r: bool)
        ensures
            r == (self@ & other@ == other@),
    {
        self.bits & other.bits == other.bits
    }

    /// The union of both sets of flags.
    pub fn union(self, other: Self) -> (r: Self)
        ensures
            r@ == self@ | other@,
    {
        ZvalTypeFlags { bits: self.bits | other.bits }
    }
}

/// Flags for building classes.
#[derive(Clone, Copy, PartialEq, Eq, Structural, Debug)]
pub struct ClassFlags {
    bits: u32,
}

impl View for ClassFlags {
    type V = u32;

    closed spec fn view(&self) -> u32 {
        self.bits
    }
}

impl ClassFlags {
    /// The empty set of flags.
    pub fn empty() -> (r: Self)
        ensures
            r@ == 0,
    {
        ClassFlags { bits: 0 }
    }

    /// The raw bits.
    pub fn bits(&self) -> (r: u32)
        ensures
            r == self@,
    {
        self.bits
    }

    /// Keeps the given bits, known or not.
    pub fn from_bits_retain(bits: u32) -> (r: Self)
        ensures
            r@ == bits,
    {
        ClassFlags { bits }
    }

    /// Keeps only the known bits.
    pub fn from_bits_truncate(bits: u32) -> (r: Self)
        ensures
            r@ == bits & CLASS_FLAGS_ALL,
    {
        ClassFlags { bits: bits & CLASS_FLAGS_ALL }
    }

    /// Whether every bit of `other` is set in `self`.
    pub fn contains(&self, other: Self) -> (r: bool)
        ensures
            r == (self@ & other@ == other@),
    {
        self.bits & other.bits == other.bits
    }

    /// The union of both sets of flags.
    pub fn union(self, other: Self) -> (r: Self)
        ensures
            r@ == self@ | other@,
    {
        ClassFlags { bits: self.bits | other.bits }
    }
}

/// Flags for building methods.
#[derive(Clone, Copy, PartialEq, Eq, Structural, Debug)]
pub struct MethodFlags {
    bits: u32,
}

impl View for MethodFlags {
    type V = u32;

    closed spec fn view(&self) -> u32 {
        self.bits
    }
}

impl MethodFlags {
    /// The empty set of flags.
    pub fn empty() -> (r: Self)
        ensures
            r@ == 0,
    {
        MethodFlags { bits: 0 }
    }

    /// The raw bits.
    pub fn bits(&self) -> (r: u32)
        ensures
            r == self@,
    {
        self.bits
    }

    /// Keeps the given bits, known or not.
    pub fn from_bits_retain(bits: u32) -> (r: Self)
        ensures
            r@ == bits,
    {
        MethodFlags { bits }
    }

    /// Keeps only the known bits.
    pub fn from_bits_truncate(bits: u32) -> (r: Self)
        ensures
            r@ == bits & METHOD_FLAGS_ALL,
    {
        MethodFlags { bits: bits & METHOD_FLAGS_ALL }
    }

    /// Whether every bit of `other` is set in `self`.
    pub fn contains(&self, other: Self) -> (r: bool)
        ensures
            r == (self@ & other@ == other@),
    {
        self.bits & other.bits == other.bits
    }

    /// The union of both sets of flags.
    pub fn union(self, other: Self) -> (r: Self)
        ensures
            r@ == self@ | other@,
    {
        MethodFlags { bits: self.bits | other.bits }
    }
}

/// Flags for building properties.
#[derive(Clone, Copy, PartialEq, Eq, Structural, Debug)]
pub struct PropertyFlags {
    bits: u32,
}

impl View for PropertyFlags {
    type V = u32;

    closed spec fn view(&self) -> u32 {
        self.bits
    }
}

impl PropertyFlags {
    /// The empty set of flags.
    pub fn empty() -> (r: Self)
        ensures
            r@ == 0,
    {
        PropertyFlags { bits: 0 }
    }

    /// The raw bits.
    pub fn bits(&self) -> (r: u32)
        ensures
            r == self@,
    {
        self.bits
    }

    /// Keeps the given bits, known or not.
    pub fn from_bits_retain(bits: u32) -> (r: Self)
        ensures
            r@ == bits,
    {
        PropertyFlags { bits }
    }

    /// Keeps only the known bits.
    pub fn from_bits_truncate(bits: u32) -> (r: Self)
        ensures
            r@ == bits & PROPERTY_FLAGS_ALL,
    {
        PropertyFlags { bits: bits & PROPERTY_FLAGS_ALL }
    }

    /// Whether every bit of `other` is set in `self`.
    pub fn contains(&self, other: Self) -> (r: bool)
        ensures
            r == (self@ & other@ == other@),
    {
        self.bits & other.bits == other.bits
    }
}

/// Flags for building class constants.
#[derive(Clone, Copy, PartialEq, Eq, Structural, Debug)]
pub struct ConstantFlags {
    bits: u32,
}

impl View for ConstantFlags {
    type V = u32;

    closed spec fn view(&self) -> u32 {
        self.bits
    }
}

impl ConstantFlags {
    /// The raw bits.
    pub fn bits(&self) -> (r: u32)
        ensures
            r == self@,
    {
        self.bits
    }

    /// Keeps only the known bits.
    pub fn from_bits_truncate(bits: u32) -> (r: Self)
        ensures
            r@ == bits & CONSTANT_FLAGS_ALL,
    {
        ConstantFlags { bits: bits & CONSTANT_FLAGS_ALL }
    }
}

/// Flags for building module global constants.
#[derive(Clone, Copy, PartialEq, Eq, Structural, Debug)]
pub struct GlobalConstantFlags {
    bits: u32,
}

impl View for GlobalConstantFlags {
    type V = u32;

    closed spec fn view(&self) -> u32 {
        self.bits
    }
}

impl GlobalConstantFlags {
    /// The raw bits.
    pub fn bits(&self) -> (r: u32)
        ensures
            r == self@,
    {
        self.bits
    }

    /// Keeps only the known bits.
    pub fn from_bits_truncate(bits: u32) -> (r: Self)
        ensures
            r@ == bits & GLOBAL_CONSTANT_FLAGS_ALL,
    {
        GlobalConstantFlags { bits: bits & GLOBAL_CONSTANT_FLAGS_ALL }
    }
}

/// Valid data types for PHP.
#[derive(Clone, Copy, PartialEq, Eq, Debug)]
pub enum DataType {
    Undef,
    Null,
    False,
    True,
    Long,
    Double,
    String,
    Array,
    Object(Option<&'static str>),
    Resource,
    Reference,
    Callable,
    ConstantExpression,
    Void,
    Mixed,
    Bool,
    Ptr,
    Indirect,
    Iterable,
}

/// The integer representation of a data type.
pub open spec fn spec_as_u32(t: DataType) -> u32 {
    match t {
        DataType::Undef => IS_UNDEF,
        DataType::Null => IS_NULL,
        DataType::False => IS_FALSE,
        DataType::True => IS_TRUE,
        DataType::Long => IS_LONG,
        DataType::Double => IS_DOUBLE,
        DataType::String => IS_STRING,
        DataType::Array => IS_ARRAY,
        DataType::Object(_) => IS_OBJECT,
        DataType::Resource => IS_RESOURCE,
        DataType::Reference => IS_REFERENCE,
        DataType::Callable => IS_CALLABLE,
        DataType::ConstantExpression => IS_CONSTANT_AST,
        DataType::Void => IS_VOID,
        DataType::Mixed => IS_MIXED,
        DataType::Bool => IS_BOOL_CAST,
        DataType::Ptr => IS_PTR,
        DataType::Indirect => IS_INDIRECT,
        DataType::Iterable => IS_ITERABLE,
    }
}

/// Whether `value` has every bit of `c` set.
pub open spec fn has_bits(value: u32, c: u32) -> bool {
    value & c == c
}

/// The data type read from a type tag: void when its bits are all set, a
/// pointer for the pointer tag itself, else the first of callable, constant
/// expression, reference, resource, array, string, double, long, true, false
/// and null whose bits are all set in the tag, else object when its bits are
/// set, else undefined when the tag's own bits allow it, else mixed.
pub open spec fn spec_from_u32(value: u32) -> DataType {
    if has_bits(value, IS_VOID) {
        DataType::Void
    } else if value == IS_PTR {
        DataType::Ptr
    } else if has_bits(value, IS_CALLABLE) {
        DataType::Callable
    } else if has_bits(value, IS_CONSTANT_AST) {
        DataType::ConstantExpression
    } else if has_bits(value, IS_REFERENCE) {
        DataType::Reference
    } else if has_bits(value, IS_RESOURCE) {
        DataType::Resource
    } else if has_bits(value, IS_ARRAY) {
        DataType::Array
    } else if has_bits(value, IS_STRING) {
        DataType::String
    } else if has_bits(value, IS_DOUBLE) {
        DataType::Double
    } else if has_bits(value, IS_LONG) {
        DataType::Long
    } else if has_bits(value, IS_TRUE) {
        DataType::True
    } else if has_bits(value, IS_FALSE) {
        DataType::False
    } else if has_bits(value, IS_NULL) {
        DataType::Null
    } else if has_bits(value, IS_OBJECT) {
        DataType::Object(None)
    } else if has_bits(value, IS_UNDEF) {
        DataType::Undef
    } else {
        DataType::Mixed
    }
}

/// The data type each tag below 15 reads as.
pub proof fn lemma_tag_types()
    ensures
        spec_from_u32(0) == DataType::Undef,
        spec_from_u32(1) == DataType::Null,
        spec_from_u32(2) == DataType::False,
        spec_from_u32(3) == DataType::True,
        spec_from_u32(4) == DataType::Long,
        spec_from_u32(5) == DataType::Double,
        spec_from_u32(6) == DataType::String,
        spec_from_u32(7) == DataType::Array,
        spec_from_u32(8) == DataType::Object(None),
        spec_from_u32(9) == DataType::Resource,
        spec_from_u32(10) == DataType::Reference,
        spec_from_u32(11) == DataType::ConstantExpression,
        spec_from_u32(12) == DataType::Callable,
        spec_from_u32(13) == DataType::Ptr,
        spec_from_u32(14) == DataType::Void,
{
    assert(0u32 & 14u32 != 14u32 && 0u32 & 12u32 != 12u32 && 0u32 & 11u32 != 11u32 && 0u32 & 10u32 != 10u32 && 0u32 & 9u32 != 9u32 && 0u32 & 7u32 != 7u32 && 0u32 & 6u32 != 6u32 && 0u32 & 5u32 != 5u32 && 0u32 & 4u32 != 4u32 && 0u32 & 3u32 != 3u32 && 0u32 & 2u32 != 2u32 && 0u32 & 1u32 != 1u32 && 0u32 & 13u32 != 13u32 && 0u32 & 8u32 != 8u32 && 0u32 & 0u32 == 0u32) by (bit_vector);
    assert(1u32 & 14u32 != 14u32 && 1u32 & 12u32 != 12u32 && 1u32 & 11u32 != 11u32 && 1u32 & 10u32 != 10u32 && 1u32 & 9u32 != 9u32 && 1u32 & 7u32 != 7u32 && 1u32 & 6u32 != 6u32 && 1u32 & 5u32 != 5u32 && 1u32 & 4u32 != 4u32 && 1u32 & 3u32 != 3u32 && 1u32 & 2u32 != 2u32 && 1u32 & 1u32 == 1u32) by (bit_vector);
    assert(2u32 & 14u32 != 14u32 && 2u32 & 12u32 != 12u32 && 2u32 & 11u32 != 11u32 && 2u32 & 10u32 != 10u32 && 2u32 & 9u32 != 9u32 && 2u32 & 7u32 != 7u32 && 2u32 & 6u32 != 6u32 && 2u32 & 5u32 != 5u32 && 2u32 & 4u32 != 4u32 && 2u32 & 3u32 != 3u32 && 2u32 & 2u32 == 2u32) by (bit_vector);
    assert(3u32 & 14u32 != 14u32 && 3u32 & 12u32 != 12u32 && 3u32 & 11u32 != 11u32 && 3u32 & 10u32 != 10u32 && 3u32 & 9u32 != 9u32 && 3u32 & 7u32 != 7u32 && 3u32 & 6u32 != 6u32 && 3u32 & 5u32 != 5u32 && 3u32 & 4u32 != 4u32 && 3u32 & 3u32 == 3u32) by (bit_vector);
    assert(4u32 & 14u32 != 14u32 && 4u32 & 12u32 != 12u32 && 4u32 & 11u32 != 11u32 && 4u32 & 10u32 != 10u32 && 4u32 & 9u32 != 9u32 && 4u32 & 7u32 != 7u32 && 4u32 & 6u32 != 6u32 && 4u32 & 5u32 != 5u32 && 4u32 & 4u32 == 4u32) by (bit_vector);
    assert(5u32 & 14u32 != 14u32 && 5u32 & 12u32 != 12u32 && 5u32 & 11u32 != 11u32 && 5u32 & 10u32 != 10u32 && 5u32 & 9u32 != 9u32 && 5u32 & 7u32 != 7u32 && 5u32 & 6u32 != 6u32 && 5u32 & 5u32 == 5u32) by (bit_vector);
    assert(6u32 & 14u32 != 14u32 && 6u32 & 12u32 != 12u32 && 6u32 & 11u32 != 11u32 && 6u32 & 10u32 != 10u32 && 6u32 & 9u32 != 9u32 && 6u32 & 7u32 != 7u32 && 6u32 & 6u32 == 6u32) by (bit_vector);
    assert(7u32 & 14u32 != 14u32 && 7u32 & 12u32 != 12u32 && 7u32 & 11u32 != 11u32 && 7u32 & 10u32 != 10u32 && 7u32 & 9u32 != 9u32 && 7u32 & 7u32 == 7u32) by (bit_vector);
    assert(8u32 & 14u32 != 14u32 && 8u32 & 12u32 != 12u32 && 8u32 & 11u32 != 11u32 && 8u32 & 10u32 != 10u32 && 8u32 & 9u32 != 9u32 && 8u32 & 7u32 != 7u32 && 8u32 & 6u32 != 6u32 && 8u32 & 5u32 != 5u32 && 8u32 & 4u32 != 4u32 && 8u32 & 3u32 != 3u32 && 8u32 & 2u32 != 2u32 && 8u32 & 1u32 != 1u32 && 8u32 & 13u32 != 13u32 && 8u32 & 8u32 == 8u32) by (bit_vector);
    assert(9u32 & 14u32 != 14u32 && 9u32 & 12u32 != 12u32 && 9u32 & 11u32 != 11u32 && 9u32 & 10u32 != 10u32 && 9u32 & 9u32 == 9u32) by (bit_vector);
    assert(10u32 & 14u32 != 14u32 && 10u32 & 12u32 != 12u32 && 10u32 & 11u32 != 11u32 && 10u32 & 10u32 == 10u32) by (bit_vector);
    assert(11u32 & 14u32 != 14u32 && 11u32 & 12u32 != 12u32 && 11u32 & 11u32 == 11u32) by (bit_vector);
    assert(12u32 & 14u32 != 14u32 && 12u32 & 12u32 == 12u32) by (bit_vector);
    assert(13u32 & 14u32 != 14u32) by (bit_vector);
    assert(14u32 & 14u32 == 14u32) by (bit_vector);
}

/// Reading back the integer representation of a value type gives that type:
/// for undefined, null, false, true, long, double, string, array, an object
/// of no named class, resource, reference, callable, constant expression,
/// void and pointer.
pub proof fn law_type_code_round_trip(t: DataType)
    requires
        t is Undef || t is Null || t is False || t is True || t is Long || t is Double
            || t is String || t is Array || t == DataType::Object(None) || t is Resource
            || t is Reference || t is Callable || t is ConstantExpression || t is Void || t is Ptr,
    ensures
        spec_from_u32(spec_as_u32(t)) == t,
{
    lemma_tag_types();
}

impl DataType {
    /// Returns the integer representation of the data type.
    pub fn as_u32(&self) -> (r: u32)
        ensures
            r == spec_as_u32(*self),
    {
        match self {
            DataType::Undef => IS_UNDEF,
            DataType::Null => IS_NULL,
            DataType::False => IS_FALSE,
            DataType::True => IS_TRUE,
            DataType::Long => IS_LONG,
            DataType::Double => IS_DOUBLE,
            DataType::String => IS_STRING,
            DataType::Array => IS_ARRAY,
            DataType::Object(_) => IS_OBJECT,
            DataType::Resource => IS_RESOURCE,
            DataType::Reference => IS_REFERENCE,
            DataType::Callable => IS_CALLABLE,
            DataType::ConstantExpression => IS_CONSTANT_AST,
            DataType::Void => IS_VOID,
            DataType::Mixed => IS_MIXED,
            DataType::Bool => IS_BOOL_CAST,
            DataType::Ptr => IS_PTR,
            DataType::Indirect => IS_INDIRECT,
            DataType::Iterable => IS_ITERABLE,
        }
    }

    /// Reads the data type of a type tag.
    pub fn from_u32(value: u32) -> (r: DataType)
        ensures
            r == spec_from_u32(value),
    {
        if value & IS_VOID == IS_VOID {
            DataType::Void
        } else if value == IS_PTR {
            DataType::Ptr
        } else if value & IS_CALLABLE == IS_CALLABLE {
            DataType::Callable
        } else if value & IS_CONSTANT_AST == IS_CONSTANT_AST {
            DataType::ConstantExpression
        } else if value & IS_REFERENCE == IS_REFERENCE {
            DataType::Reference
        } else if value & IS_RESOURCE == IS_RESOURCE {
            DataType::Resource
        } else if value & IS_ARRAY == IS_ARRAY {
            DataType::Array
        } else if value & IS_STRING == IS_STRING {
            DataType::String
        } else if value & IS_DOUBLE == IS_DOUBLE {
            DataType::Double
        } else if value & IS_LONG == IS_LONG {
            DataType::Long
        } else if value & IS_TRUE == IS_TRUE {
            DataType::True
        } else if value & IS_FALSE == IS_FALSE {
            DataType::False
        } else if value & IS_NULL == IS_NULL {
            DataType::Null
        } else if value & IS_OBJECT == IS_OBJECT {
            DataType::Object(None)
        } else if value & IS_UNDEF == IS_UNDEF {
            DataType::Undef
        } else {
            DataType::Mixed
        }
    }
}

impl From<u32> for DataType {
    fn from(value: u32) -> (r: DataType) {
        DataType::from_u32(value)
    }
}

impl vstd::std_specs::convert::FromSpecImpl<u32> for DataType {
    open spec fn obeys_from_spec() -> bool {
        true
    }

    open spec fn from_spec(value: u32) -> DataType {
        spec_from_u32(value)
    }
}

impl Default for DataType {
    fn default() -> (r: DataType)
        ensures
            r == DataType::Void,
    {
        DataType::Void
    }
}

/// The name of a data type as PHP messages print it: a named class by its
/// name.
pub open spec fn spec_type_name(t: DataType) -> Seq<char> {
    match t {
        DataType::Object(Some(name)) => name@,
        DataType::Object(None) => "Object"@,
        DataType::Undef => "Undefined"@,
        DataType::Null => "Null"@,
        DataType::False => "False"@,
        DataType::True => "True"@,
        DataType::Long => "Long"@,
        DataType::Double => "Double"@,
        DataType::String => "String"@,
        DataType::Array => "Array"@,
        DataType::Resource => "Resource"@,
        DataType::Reference => "Reference"@,
        DataType::Callable => "Callable"@,
        DataType::ConstantExpression => "Constant Expression"@,
        DataType::Void => "Void"@,
        DataType::Bool => "Bool"@,
        DataType::Mixed => "Mixed"@,
        DataType::Ptr => "Pointer"@,
        DataType::Indirect => "Indirect"@,
        DataType::Iterable => "Iterable"@,
    }
}

impl DataType {
    /// The name of the data type as PHP messages print it: a named class by
    /// its name.
    pub fn to_string(&self) -> (r: String)
        ensures
            r@ == spec_type_name(*self),
    {
        match self {
            DataType::Object(Some(name)) => (*name).to_owned(),
            DataType::Object(None) => "Object".to_string(),
            DataType::Undef => "Undefined".to_string(),
            DataType::Null => "Null".to_string(),
            DataType::False => "False".to_string(),
            DataType::True => "True".to_string(),
            DataType::Long => "Long".to_string(),
            DataType::Double => "Double".to_string(),
            DataType::String => "String".to_string(),
            DataType::Array => "Array".to_string(),
            DataType::Resource => "Resource".to_string(),
            DataType::Reference => "Reference".to_string(),
            DataType::Callable => "Callable".to_string(),
            DataType::ConstantExpression => "Constant Expression".to_string(),
            DataType::Void => "Void".to_string(),
            DataType::Bool => "Bool".to_string(),
            DataType::Mixed => "Mixed".to_string(),
            DataType::Ptr => "Pointer".to_string(),
            DataType::Indirect => "Indirect".to_string(),
            DataType::Iterable => "Iterable".to_string(),
        }
    }
}

impl TryFrom<ZvalTypeFlags> for DataType {
    type Error = crate::error::Error;

    /// Reads the data type of type flags, trying the types in turn; as the
    /// flag of `Undef` is empty, every set of flags contains it, and every
    /// set of flags reads as `Undef`.
    fn try_from(value: ZvalTypeFlags) -> (r: Result<DataType, crate::error::Error>) {
        let bits = value.bits();
        assert(bits & 0u32 == 0u32) by (bit_vector);
        if value.contains(ZvalTypeFlags::from_bits_retain(IS_UNDEF)) {
            return Ok(DataType::Undef);
        }
        if value.contains(ZvalTypeFlags::from_bits_retain(IS_NULL)) {
            return Ok(DataType::Null);
        }
        if value.contains(ZvalTypeFlags::from_bits_retain(IS_FALSE)) {
            return Ok(DataType::False);
        }
        if value.contains(ZvalTypeFlags::from_bits_retain(IS_TRUE)) {
            return Ok(DataType::True);
        }
        if value.contains(ZvalTypeFlags::from_bits_retain(IS_FALSE)) {
            return Ok(DataType::False);
        }
        if value.contains(ZvalTypeFlags::from_bits_retain(IS_LONG)) {
            return Ok(DataType::Long);
        }
        if value.contains(ZvalTypeFlags::from_bits_retain(IS_DOUBLE)) {
            return Ok(DataType::Double);
        }
        if value.contains(ZvalTypeFlags::from_bits_retain(IS_STRING)) {
            return Ok(DataType::String);
        }
        if value.contains(ZvalTypeFlags::from_bits_retain(IS_ARRAY)) {
            return Ok(DataType::Array);
        }
        if value.contains(ZvalTypeFlags::from_bits_retain(IS_RESOURCE)) {
            return Ok(DataType::Resource);
        }
        if value.contains(ZvalTypeFlags::from_bits_retain(IS_CALLABLE)) {
            return Ok(DataType::Callable);
        }
        if value.contains(ZvalTypeFlags::from_bits_retain(IS_CONSTANT_AST)) {
            return Ok(DataType::ConstantExpression);
        }
        if value.contains(ZvalTypeFlags::from_bits_retain(IS_VOID)) {
            return Ok(DataType::Void);
        }
        if value.contains(ZvalTypeFlags::from_bits_retain(IS_OBJECT)) {
            return Ok(DataType::Object(None));
        }
        Err(crate::error::Error::UnknownDatatype(0))
    }
}

impl vstd::std_specs::convert::TryFromSpecImpl<ZvalTypeFlags> for DataType {
    open spec fn obeys_try_from_spec() -> bool {
        true
    }

    open spec fn try_from_spec(value: ZvalTypeFlags) -> Result<DataType, crate::error::Error> {
        Ok(DataType::Undef)
    }
}

} // verus!
