//! Conversions between Rust values and zvals.

use vstd::prelude::*;
use vstd::string::*;
use vstd::utf8::*;

use crate::array::ZendHashTable;
use crate::error::Error;
use crate::flags::DataType;
use crate::zval::{
    array_zval_model, bool_model, long_model, model_bool, model_long, model_text, null_model,
    string_model, Zval, ZvalModel,
};

verus! {

/// Converts Rust values into zvals.
pub trait IntoZval: Sized {
    /// The zval the value becomes, or [`None`] when it cannot become one.
    spec fn zval_of(&self, persistent: bool) -> Option<ZvalModel>;

    /// The error reported when the value cannot become a zval.
    spec fn conversion_error(&self) -> Error;

    /// The PHP type of such values.
    spec fn type_of() -> DataType;

    /// The PHP type of such values.
    fn php_type() -> (r: DataType)
        ensures
            r == Self::type_of(),
    ;

    /// Sets the content of a zval to the value.
    fn set_zval(self, zv: &mut Zval, persistent: bool) -> (r: Result<(), Error>)
        ensures
            r is Ok <==> self.zval_of(persistent) is Some,
            r is Ok ==> final(zv)@ == self.zval_of(persistent).unwrap(),
            r is Err ==> final(zv)@ == old(zv)@,
            r matches Err(e) ==> e == self.conversion_error(),
    ;

    /// Converts the value into a new zval.
    fn into_zval(self, persistent: bool) -> (r: Result<Zval, Error>)
        ensures
            r is Ok <==> self.zval_of(persistent) is Some,
            r matches Ok(z) ==> z@ == self.zval_of(persistent).unwrap(),
            r matches Err(e) ==> e == self.conversion_error(),
    {
        let mut zv = Zval::new();
        match self.set_zval(&mut zv, persistent) {
            Ok(()) => Ok(zv),
            Err(e) => Err(e),
        }
    }
}

impl IntoZval for Zval {
    open spec fn zval_of(&self, persistent: bool) -> Option<ZvalModel> {
        Some(self@)
    }

    open spec fn conversion_error(&self) -> Error {
        Error::InvalidPointer
    }

    open spec fn type_of() -> DataType {
        DataType::Mixed
    }

    fn php_type() -> (r: DataType) {
        DataType::Mixed
    }

    fn set_zval(self, zv: &mut Zval, persistent: bool) -> (r: Result<(), Error>) {
        *zv = self;
        Ok(())
    }
}

impl IntoZval for i64 {
    open spec fn zval_of(&self, persistent: bool) -> Option<ZvalModel> {
        Some(long_model(*self))
    }

    open spec fn conversion_error(&self) -> Error {
        Error::IntegerOverflow
    }

    open spec fn type_of() -> DataType {
        DataType::Long
    }

    fn php_type() -> (r: DataType) {
        DataType::Long
    }

    fn set_zval(self, zv: &mut Zval, persistent: bool) -> (r: Result<(), Error>) {
        zv.set_long(self);
        Ok(())
    }
}

impl IntoZval for i32 {
    open spec fn zval_of(&self, persistent: bool) -> Option<ZvalModel> {
        Some(long_model(*self as i64))
    }

    open spec fn conversion_error(&self) -> Error {
        Error::IntegerOverflow
    }

    open spec fn type_of() -> DataType {
        DataType::Long
    }

    fn php_type() -> (r: DataType) {
        DataType::Long
    }

    fn set_zval(self, zv: &mut Zval, persistent: bool) -> (r: Result<(), Error>) {
        zv.set_long(self as i64);
        Ok(())
    }
}

impl IntoZval for u32 {
    open spec fn zval_of(&self, persistent: bool) -> Option<ZvalModel> {
        Some(long_model(*self as i64))
    }

    open spec fn conversion_error(&self) -> Error {
        Error::IntegerOverflow
    }

    open spec fn type_of() -> DataType {
        DataType::Long
    }

    fn php_type() -> (r: DataType) {
        DataType::Long
    }

    fn set_zval(self, zv: &mut Zval, persistent: bool) -> (r: Result<(), Error>) {
        zv.set_long(self as i64);
        Ok(())
    }
}

impl IntoZval for u64 {
    open spec fn zval_of(&self, persistent: bool) -> Option<ZvalModel> {
        if *self as int <= i64::MAX {
            Some(long_model(*self as i64))
        } else {
            None
        }
    }

    open spec fn conversion_error(&self) -> Error {
        Error::IntegerOverflow
    }

    open spec fn type_of() -> DataType {
        DataType::Long
    }

    fn php_type() -> (r: DataType) {
        DataType::Long
    }

    fn set_zval(self, zv: &mut Zval, persistent: bool) -> (r: Result<(), Error>) {
        if self <= 9223372036854775807u64 {
            zv.set_long(self as i64);
            Ok(())
        } else {
            Err(Error::IntegerOverflow)
        }
    }
}

impl IntoZval for usize {
    open spec fn zval_of(&self, persistent: bool) -> Option<ZvalModel> {
        if *self as int <= i64::MAX {
            Some(long_model(*self as i64))
        } else {
            None
        }
    }

    open spec fn conversion_error(&self) -> Error {
        Error::IntegerOverflow
    }

    open spec fn type_of() -> DataType {
        DataType::Long
    }

    fn php_type() -> (r: DataType) {
        DataType::Long
    }

    fn set_zval(self, zv: &mut Zval, persistent: bool) -> (r: Result<(), Error>) {
        if self as u64 <= 9223372036854775807u64 {
            zv.set_long(self as i64);
            Ok(())
        } else {
            Err(Error::IntegerOverflow)
        }
    }
}

impl IntoZval for bool {
    open spec fn zval_of(&self, persistent: bool) -> Option<ZvalModel> {
        Some(bool_model(*self))
    }

    open spec fn conversion_error(&self) -> Error {
        Error::IntegerOverflow
    }

    open spec fn type_of() -> DataType {
        DataType::Bool
    }

    fn php_type() -> (r: DataType) {
        DataType::Bool
    }

    fn set_zval(self, zv: &mut Zval, persistent: bool) -> (r: Result<(), Error>) {
        zv.set_bool(self);
        Ok(())
    }
}

impl IntoZval for String {
    open spec fn zval_of(&self, persistent: bool) -> Option<ZvalModel> {
        Some(string_model(encode_utf8(self@)))
    }

    open spec fn conversion_error(&self) -> Error {
        Error::InvalidCString
    }

    open spec fn type_of() -> DataType {
        DataType::String
    }

    fn php_type() -> (r: DataType) {
        DataType::String
    }

    fn set_zval(self, zv: &mut Zval, persistent: bool) -> (r: Result<(), Error>) {
        zv.set_string(self.as_str(), persistent)
    }
}

impl<'a> IntoZval for &'a str {
    open spec fn zval_of(&self, persistent: bool) -> Option<ZvalModel> {
        Some(string_model((*self).spec_bytes()))
    }

    open spec fn conversion_error(&self) -> Error {
        Error::InvalidCString
    }

    open spec fn type_of() -> DataType {
        DataType::String
    }

    fn php_type() -> (r: DataType) {
        DataType::String
    }

    fn set_zval(self, zv: &mut Zval, persistent: bool) -> (r: Result<(), Error>) {
        zv.set_string(self, persistent)
    }
}

impl IntoZval for () {
    open spec fn zval_of(&self, persistent: bool) -> Option<ZvalModel> {
        Some(null_model())
    }

    open spec fn conversion_error(&self) -> Error {
        Error::InvalidPointer
    }

    open spec fn type_of() -> DataType {
        DataType::Void
    }

    fn php_type() -> (r: DataType) {
        DataType::Void
    }

    fn set_zval(self, zv: &mut Zval, persistent: bool) -> (r: Result<(), Error>) {
        zv.set_null();
        Ok(())
    }
}

impl<T: IntoZval> IntoZval for Option<T> {
    open spec fn zval_of(&self, persistent: bool) -> Option<ZvalModel> {
        match self {
            Some(v) => v.zval_of(persistent),
            None => Some(null_model()),
        }
    }

    open spec fn conversion_error(&self) -> Error {
        match self {
            Some(v) => v.conversion_error(),
            None => Error::InvalidPointer,
        }
    }

    open spec fn type_of() -> DataType {
        T::type_of()
    }

    fn php_type() -> (r: DataType) {
        T::php_type()
    }

    fn set_zval(self, zv: &mut Zval, persistent: bool) -> (r: Result<(), Error>) {
        match self {
            Some(v) => v.set_zval(zv, persistent),
            None => {
                zv.set_null();
                Ok(())
            },
        }
    }
}

impl IntoZval for ZendHashTable {
    open spec fn zval_of(&self, persistent: bool) -> Option<ZvalModel> {
        Some(array_zval_model(self@))
    }

    open spec fn conversion_error(&self) -> Error {
        Error::InvalidPointer
    }

    open spec fn type_of() -> DataType {
        DataType::Array
    }

    fn php_type() -> (r: DataType) {
        DataType::Array
    }

    fn set_zval(self, zv: &mut Zval, persistent: bool) -> (r: Result<(), Error>) {
        zv.set_hashtable(self);
        Ok(())
    }
}

/// Converts values into zvals through a shared reference, so that values
/// of different types can be passed side by side; the value is copied
/// first.
pub trait IntoZvalDyn: IntoZval {
    /// Converts a copy of the value into a zval.
    fn as_zval(&self, persistent: bool) -> (r: Result<Zval, Error>)
        ensures
            r is Ok <==> self.zval_of(persistent) is Some,
            r matches Ok(z) ==> z@ == self.zval_of(persistent).unwrap(),
            r matches Err(e) ==> e == self.conversion_error(),
    ;

    /// The PHP type of the value.
    fn get_type(&self) -> (r: DataType)
        ensures
            r == Self::type_of(),
    ;
}

impl IntoZvalDyn for i64 {
    fn as_zval(&self, persistent: bool) -> (r: Result<Zval, Error>) {
        (*self).into_zval(persistent)
    }

    fn get_type(&self) -> (r: DataType) {
        <i64 as IntoZval>::php_type()
    }
}

impl IntoZvalDyn for i32 {
    fn as_zval(&self, persistent: bool) -> (r: Result<Zval, Error>) {
        (*self).into_zval(persistent)
    }

    fn get_type(&self) -> (r: DataType) {
        <i32 as IntoZval>::php_type()
    }
}

impl IntoZvalDyn for u32 {
    fn as_zval(&self, persistent: bool) -> (r: Result<Zval, Error>) {
        (*self).into_zval(persistent)
    }

    fn get_type(&self) -> (r: DataType) {
        <u32 as IntoZval>::php_type()
    }
}

impl IntoZvalDyn for u64 {
    fn as_zval(&self, persistent: bool) -> (r: Result<Zval, Error>) {
        (*self).into_zval(persistent)
    }

    fn get_type(&self) -> (r: DataType) {
        <u64 as IntoZval>::php_type()
    }
}

impl IntoZvalDyn for usize {
    fn as_zval(&self, persistent: bool) -> (r: Result<Zval, Error>) {
        (*self).into_zval(persistent)
    }

    fn get_type(&self) -> (r: DataType) {
        <usize as IntoZval>::php_type()
    }
}

impl IntoZvalDyn for bool {
    fn as_zval(&self, persistent: bool) -> (r: Result<Zval, Error>) {
        (*self).into_zval(persistent)
    }

    fn get_type(&self) -> (r: DataType) {
        <bool as IntoZval>::php_type()
    }
}

impl IntoZvalDyn for String {
    fn as_zval(&self, persistent: bool) -> (r: Result<Zval, Error>) {
        self.clone().into_zval(persistent)
    }

    fn get_type(&self) -> (r: DataType) {
        <String as IntoZval>::php_type()
    }
}

impl<'a> IntoZvalDyn for &'a str {
    fn as_zval(&self, persistent: bool) -> (r: Result<Zval, Error>) {
        (*self).into_zval(persistent)
    }

    fn get_type(&self) -> (r: DataType) {
        <&'a str as IntoZval>::php_type()
    }
}

/// Reads Rust values out of zvals.
pub trait FromZval: Sized {
    /// Whether a zval can be read as such a value.
    spec fn accepts(z: ZvalModel) -> bool;

    /// Whether `v` is what the zval reads as.
    spec fn read_as(z: ZvalModel, v: Self) -> bool;

    /// The PHP type of such values.
    spec fn type_of() -> DataType;

    /// The PHP type of such values.
    fn php_type() -> (r: DataType)
        ensures
            r == Self::type_of(),
    ;

    /// Reads the value out of a zval, if it holds one.
    fn from_zval(zv: &Zval) -> (r: Option<Self>)
        ensures
            r is Some <==> Self::accepts(zv@),
            r matches Some(v) ==> Self::read_as(zv@, v),
    ;
}

impl FromZval for i64 {
    open spec fn accepts(z: ZvalModel) -> bool {
        model_long(z) is Some
    }

    open spec fn read_as(z: ZvalModel, v: i64) -> bool {
        model_long(z) == Some(v)
    }

    open spec fn type_of() -> DataType {
        DataType::Long
    }

    fn php_type() -> (r: DataType) {
        DataType::Long
    }

    fn from_zval(zv: &Zval) -> (r: Option<i64>) {
        zv.long()
    }
}

impl FromZval for i32 {
    open spec fn accepts(z: ZvalModel) -> bool {
        model_long(z) is Some && i32::MIN <= model_long(z).unwrap() <= i32::MAX
    }

    open spec fn read_as(z: ZvalModel, v: i32) -> bool {
        model_long(z) == Some(v as i64)
    }

    open spec fn type_of() -> DataType {
        DataType::Long
    }

    fn php_type() -> (r: DataType) {
        DataType::Long
    }

    fn from_zval(zv: &Zval) -> (r: Option<i32>) {
        match zv.long() {
            Some(l) => if -2147483648i64 <= l && l <= 2147483647i64 {
                Some(l as i32)
            } else {
                None
            },
            None => None,
        }
    }
}

impl FromZval for u32 {
    open spec fn accepts(z: ZvalModel) -> bool {
        model_long(z) is Some && 0 <= model_long(z).unwrap() <= u32::MAX
    }

    open spec fn read_as(z: ZvalModel, v: u32) -> bool {
        model_long(z) == Some(v as i64)
    }

    open spec fn type_of() -> DataType {
        DataType::Long
    }

    fn php_type() -> (r: DataType) {
        DataType::Long
    }

    fn from_zval(zv: &Zval) -> (r: Option<u32>) {
        match zv.long() {
            Some(l) => if 0 <= l && l <= 4294967295i64 {
                Some(l as u32)
            } else {
                None
            },
            None => None,
        }
    }
}

impl FromZval for bool {
    open spec fn accepts(z: ZvalModel) -> bool {
        model_bool(z) is Some
    }

    open spec fn read_as(z: ZvalModel, v: bool) -> bool {
        model_bool(z) == Some(v)
    }

    open spec fn type_of() -> DataType {
        DataType::Bool
    }

    fn php_type() -> (r: DataType) {
        DataType::Bool
    }

    fn from_zval(zv: &Zval) -> (r: Option<bool>) {
        zv.bool()
    }
}

impl FromZval for String {
    open spec fn accepts(z: ZvalModel) -> bool {
        model_text(z) is Some
    }

    open spec fn read_as(z: ZvalModel, v: String) -> bool {
        model_text(z) == Some(v@)
    }

    open spec fn type_of() -> DataType {
        DataType::String
    }

    fn php_type() -> (r: DataType) {
        DataType::String
    }

    fn from_zval(zv: &Zval) -> (r: Option<String>) {
        zv.string()
    }
}

impl FromZval for Zval {
    open spec fn accepts(z: ZvalModel) -> bool {
        true
    }

    open spec fn read_as(z: ZvalModel, v: Zval) -> bool {
        v@ == z
    }

    open spec fn type_of() -> DataType {
        DataType::Mixed
    }

    fn php_type() -> (r: DataType) {
        DataType::Mixed
    }

    fn from_zval(zv: &Zval) -> (r: Option<Zval>) {
        Some(zv.duplicate())
    }
}

impl Zval {
    /// Reads the zval as a `T`, if it holds one.
    pub fn extract<T: FromZval>(&self) -> (r: Option<T>)
        ensures
            r is Some <==> T::accepts(self@),
            r matches Some(v) ==> T::read_as(self@, v),
    {
        T::from_zval(self)
    }
}

/// Reading back the zval a value becomes gives the value: for integers,
/// booleans and strings, what `into_zval` writes, `from_zval` reads as the
/// same value.
pub proof fn law_from_zval_after_into_zval(l: i64, i: i32, u: u32, b: bool, s: String, persistent: bool)
    ensures
        l.zval_of(persistent) matches Some(z) && <i64 as FromZval>::accepts(z) && <i64 as FromZval>::read_as(z, l),
        i.zval_of(persistent) matches Some(z) && <i32 as FromZval>::accepts(z) && <i32 as FromZval>::read_as(z, i),
        u.zval_of(persistent) matches Some(z) && <u32 as FromZval>::accepts(z) && <u32 as FromZval>::read_as(z, u),
        b.zval_of(persistent) matches Some(z) && <bool as FromZval>::accepts(z) && <bool as FromZval>::read_as(z, b),
        s.zval_of(persistent) matches Some(z) && <String as FromZval>::accepts(z) && <String as FromZval>::read_as(z, s),
{
    crate::flags::lemma_tag_types();
    crate::zval::law_text_after_set(s@);
}

} // verus!
