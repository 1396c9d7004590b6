//! Binary data exchanged with PHP: integers packed into the bytes of a
//! string, as PHP's `pack` and `unpack` produce and read them.

use vstd::prelude::*;

use crate::convert::{FromZval, IntoZval};
use crate::error::Error;
use crate::flags::DataType;
use crate::pack::{pack_bytes, pack_into, unpack_into, unpack_values, Pack};
use crate::zval::{model_str, string_model, Zval, ZvalModel};

verus! {

/// A vector of values that crosses into PHP as a binary string.
#[derive(Debug)]
pub struct Binary<T: Pack>(Vec<T>);

impl<T: Pack> View for Binary<T> {
    type V = Seq<T>;

    closed spec fn view(&self) -> Seq<T> {
        self.0@
    }
}

impl<T: Pack> Binary<T> {
    /// Wraps the values.
    pub fn new(data: Vec<T>) -> (r: Binary<T>)
        ensures
            r@ == data@,
    {
        Binary(data)
    }

    /// The values.
    pub fn into_inner(self) -> (r: Vec<T>)
        ensures
            r@ == self@,
    {
        self.0
    }
}

impl Zval {
    /// Sets the value of the zval to the binary string of the values.
    pub fn set_binary<T: Pack>(&mut self, val: Vec<T>)
        ensures
            final(self)@ == string_model(pack_bytes(val@)),
    {
        self.set_zend_string(pack_into(val));
    }

    /// Returns the values packed in the zval's string, if it holds a string.
    pub fn binary<T: Pack>(&self) -> (r: Option<Vec<T>>)
        ensures
            r is Some <==> model_str(self@) is Some,
            r matches Some(v) ==> v@ == unpack_values::<T>(model_str(self@).unwrap()),
    {
        match self.zend_str() {
            Some(s) => Some(unpack_into(s)),
            None => None,
        }
    }

    /// Returns the values packed in the zval's string, if it holds a string.
    pub fn binary_slice<T: Pack>(&self) -> (r: Option<Vec<T>>)
        ensures
            r is Some <==> model_str(self@) is Some,
            r matches Some(v) ==> v@ == unpack_values::<T>(model_str(self@).unwrap()),
    {
        self.binary()
    }
}

impl<T: Pack> IntoZval for Binary<T> {
    open spec fn zval_of(&self, persistent: bool) -> Option<ZvalModel> {
        Some(string_model(pack_bytes(self@)))
    }

    open spec fn conversion_error(&self) -> Error {
        Error::InvalidPointer
    }

    open spec fn type_of() -> DataType {
        DataType::String
    }

    fn php_type() -> (r: DataType) {
        DataType::String
    }

    fn set_zval(self, zv: &mut Zval, persistent: bool) -> (r: Result<(), Error>) {
        zv.set_binary(self.0);
        Ok(())
    }
}

impl<T: Pack> FromZval for Binary<T> {
    open spec fn accepts(z: ZvalModel) -> bool {
        model_str(z) is Some
    }

    open spec fn read_as(z: ZvalModel, v: Binary<T>) -> bool {
        v@ == unpack_values::<T>(model_str(z).unwrap())
    }

    open spec fn type_of() -> DataType {
        DataType::String
    }

    fn php_type() -> (r: DataType) {
        DataType::String
    }

    fn from_zval(zv: &Zval) -> (r: Option<Binary<T>>) {
        match zv.binary() {
            Some(b) => Some(Binary(b)),
            None => None,
        }
    }
}

/// Reading the values of a zval set to binary data gives the values back.
pub proof fn law_binary_after_set_binary<T: Pack>(v: Seq<T>)
    ensures
        model_str(string_model(pack_bytes(v))) matches Some(b) && unpack_values::<T>(b) == v,
{
    crate::flags::lemma_tag_types();
    crate::pack::pack_unpack_roundtrip(v);
}

} // verus!
