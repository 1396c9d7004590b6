//! The base value in PHP. A zval can hold any PHP value; which one is given
//! by its type tag.

use vstd::prelude::*;
use vstd::utf8::*;
use vstd::string::*;

use crate::array::{array_model, ArrayModel, ZendHashTable};
use crate::error::Error;
use crate::flags::{lemma_tag_types, spec_from_u32, DataType};
use crate::object::{object_model, ObjectModel, ZendObject};
use crate::string::ZendStr;
use crate::text::{decimal, i64_to_string, parse_i64, spec_parse_i64};

verus! {

/// The payload of a zval.
#[derive(Debug)]
pub enum ZendValue {
    /// No payload: undefined, null, false and true.
    Empty,
    /// An integer.
    Long(i64),
    /// A floating point number, by its IEEE-754 bit pattern.
    Double(u64),
    /// A string.
    Str(ZendStr),
    /// An array.
    Array(ZendHashTable),
    /// An object.
    Object(ZendObject),
    /// A resource, by its handle.
    Resource(u64),
    /// A reference to another zval.
    Reference(Box<Zval>),
    /// An internal indirection to another zval.
    Indirect(Box<Zval>),
    /// A raw pointer, by its address.
    Ptr(usize),
}

/// A zend value: the primary storage container of the engine.
#[derive(Debug)]
pub struct Zval {
    /// The type tag (`u1.v.type_`).
    pub(crate) type_: u8,
    /// The type flags (`u1.v.type_flags`).
    pub(crate) type_flags: u8,
    /// The payload.
    pub(crate) value: ZendValue,
}

/// Abstract payload of a zval.
pub enum ValueModel {
    Empty,
    Long(i64),
    Double(u64),
    Str(Seq<u8>),
    Array(ArrayModel),
    Object(ObjectModel),
    Resource(u64),
    Reference(Box<ZvalModel>),
    Indirect(Box<ZvalModel>),
    Ptr(usize),
}

/// Abstract zval: type tag, type flags and payload.
pub struct ZvalModel {
    pub tag: u8,
    pub flags: u8,
    pub value: ValueModel,
}

/// The abstract zval of a zval.
pub closed spec fn zval_model(z: &Zval) -> ZvalModel
    decreases z,
{
    ZvalModel {
        tag: z.type_,
        flags: z.type_flags,
        value: match &z.value {
            ZendValue::Empty => ValueModel::Empty,
            ZendValue::Long(v) => ValueModel::Long(*v),
            ZendValue::Double(b) => ValueModel::Double(*b),
            ZendValue::Str(s) => ValueModel::Str(s@),
            ZendValue::Array(h) => ValueModel::Array(array_model(h)),
            ZendValue::Object(o) => ValueModel::Object(object_model(o)),
            ZendValue::Resource(r) => ValueModel::Resource(*r),
            ZendValue::Reference(b) => ValueModel::Reference(Box::new(zval_model(&**b))),
            ZendValue::Indirect(b) => ValueModel::Indirect(Box::new(zval_model(&**b))),
            ZendValue::Ptr(p) => ValueModel::Ptr(*p),
        },
    }
}

impl View for Zval {
    type V = ZvalModel;

    open spec fn view(&self) -> ZvalModel {
        zval_model(self)
    }
}

/// The data type a zval reports.
pub open spec fn model_type(z: ZvalModel) -> DataType {
    spec_from_u32(z.tag as u32)
}

/// The integer a zval holds, if it is a long.
pub open spec fn model_long(z: ZvalModel) -> Option<i64> {
    if model_type(z) == DataType::Long {
        match z.value {
            ValueModel::Long(v) => Some(v),
            _ => None,
        }
    } else {
        None
    }
}

/// The boolean a zval holds, if it is true or false.
pub open spec fn model_bool(z: ZvalModel) -> Option<bool> {
    if model_type(z) == DataType::True {
        Some(true)
    } else if model_type(z) == DataType::False {
        Some(false)
    } else {
        None
    }
}

/// The bit pattern of the double a zval holds, if it is a double.
pub open spec fn model_double_bits(z: ZvalModel) -> Option<u64> {
    if model_type(z) == DataType::Double {
        match z.value {
            ValueModel::Double(b) => Some(b),
            _ => None,
        }
    } else {
        None
    }
}

/// The bytes of the string a zval holds, if it is a string.
pub open spec fn model_str(z: ZvalModel) -> Option<Seq<u8>> {
    if model_type(z) == DataType::String {
        match z.value {
            ValueModel::Str(s) => Some(s),
            _ => None,
        }
    } else {
        None
    }
}

/// The text of the string a zval holds, if it is a string of valid UTF-8.
pub open spec fn model_text(z: ZvalModel) -> Option<Seq<char>> {
    match model_str(z) {
        Some(b) => if valid_utf8(b) {
            Some(decode_utf8(b))
        } else {
            None
        },
        None => None,
    }
}

/// The handle of the resource a zval holds, if it is a resource.
pub open spec fn model_resource(z: ZvalModel) -> Option<u64> {
    if model_type(z) == DataType::Resource {
        match z.value {
            ValueModel::Resource(r) => Some(r),
            _ => None,
        }
    } else {
        None
    }
}

/// The array a zval holds, if it is an array.
pub open spec fn model_array(z: ZvalModel) -> Option<ArrayModel> {
    if model_type(z) == DataType::Array {
        match z.value {
            ValueModel::Array(a) => Some(a),
            _ => None,
        }
    } else {
        None
    }
}

/// Whether the zval reports an object type.
pub open spec fn model_is_object(z: ZvalModel) -> bool {
    model_type(z) is Object
}

/// The object a zval holds, if it is an object.
pub open spec fn model_object(z: ZvalModel) -> Option<ObjectModel> {
    if model_is_object(z) {
        match z.value {
            ValueModel::Object(o) => Some(o),
            _ => None,
        }
    } else {
        None
    }
}

/// The zval a reference points at, if the zval is a reference.
pub open spec fn model_reference(z: ZvalModel) -> Option<ZvalModel> {
    if model_type(z) == DataType::Reference {
        match z.value {
            ValueModel::Reference(b) => Some(*b),
            _ => None,
        }
    } else {
        None
    }
}

/// The zval an indirection points at, if the zval is indirect.
pub open spec fn model_indirect(z: ZvalModel) -> Option<ZvalModel> {
    if model_type(z) == DataType::Indirect {
        match z.value {
            ValueModel::Indirect(b) => Some(*b),
            _ => None,
        }
    } else {
        None
    }
}

/// The address a zval holds, if it is a pointer.
pub open spec fn model_ptr(z: ZvalModel) -> Option<usize> {
    if model_type(z) == DataType::Ptr {
        match z.value {
            ValueModel::Ptr(p) => Some(p),
            _ => None,
        }
    } else {
        None
    }
}

/// What a zval dereferences to: the referenced zval, else the indirect one,
/// else the zval itself.
pub open spec fn model_deref(z: ZvalModel) -> ZvalModel {
    match model_reference(z) {
        Some(r) => r,
        None => match model_indirect(z) {
            Some(i) => i,
            None => z,
        },
    }
}

/// Whether a zval's payload is of the kind its type tag calls for: none for
/// undefined, null, false and true, the matching payload for a long, a
/// double, a string, an array, an object, a resource, a pointer and a
/// reference, whose referenced zval is well formed in turn.
pub open spec fn model_wf(z: ZvalModel) -> bool
    decreases z,
{
    match model_type(z) {
        DataType::Undef | DataType::Null | DataType::False | DataType::True => z.value is Empty,
        DataType::Long => z.value is Long,
        DataType::Double => z.value is Double,
        DataType::String => z.value is Str,
        DataType::Array => z.value is Array,
        DataType::Object(_) => z.value is Object,
        DataType::Resource => z.value is Resource,
        DataType::Ptr => z.value is Ptr,
        DataType::Reference => match z.value {
            ValueModel::Reference(b) => model_wf(*b),
            _ => false,
        },
        _ => true,
    }
}

/// A null zval.
pub open spec fn null_model() -> ZvalModel {
    ZvalModel { tag: 1, flags: 0, value: ValueModel::Empty }
}

/// A long zval.
pub open spec fn long_model(v: i64) -> ZvalModel {
    ZvalModel { tag: 4, flags: 0, value: ValueModel::Long(v) }
}

/// A boolean zval.
pub open spec fn bool_model(b: bool) -> ZvalModel {
    ZvalModel { tag: if b { 3 } else { 2 }, flags: 0, value: ValueModel::Empty }
}

/// A double zval, by bit pattern.
pub open spec fn double_model(bits: u64) -> ZvalModel {
    ZvalModel { tag: 5, flags: 0, value: ValueModel::Double(bits) }
}

/// A reference-counted string zval.
pub open spec fn string_model(bytes: Seq<u8>) -> ZvalModel {
    ZvalModel { tag: 6, flags: 1, value: ValueModel::Str(bytes) }
}

/// An array zval.
pub open spec fn array_zval_model(a: ArrayModel) -> ZvalModel {
    ZvalModel { tag: 7, flags: 3, value: ValueModel::Array(a) }
}

/// An object zval.
pub open spec fn object_zval_model(o: ObjectModel) -> ZvalModel {
    ZvalModel { tag: 8, flags: 3, value: ValueModel::Object(o) }
}

/// A resource zval.
pub open spec fn resource_model(r: u64) -> ZvalModel {
    ZvalModel { tag: 9, flags: 1, value: ValueModel::Resource(r) }
}

/// A pointer zval.
pub open spec fn ptr_model(p: usize) -> ZvalModel {
    ZvalModel { tag: 13, flags: 0, value: ValueModel::Ptr(p) }
}

/// Whether a double, given by bit pattern, differs from zero (of either
/// sign); NaN differs from zero.
pub open spec fn double_nonzero(bits: u64) -> bool {
    bits & 0x7fff_ffff_ffff_ffff != 0
}

/// The bytes of a decimal text made of ASCII characters.
pub open spec fn ascii_bytes(s: Seq<char>) -> Seq<u8> {
    Seq::new(s.len(), |i: int| s[i] as u8)
}

/// Outcome of coercing a zval into a string.
pub open spec fn coerce_string_model(z: ZvalModel, double_text: Seq<u8>) -> (Option<ZvalModel>, Option<DataType>) {
    if model_type(z) == DataType::String {
        (None, None)
    } else if model_double_bits(z) is Some {
        (Some(string_model(double_text)), None)
    } else if model_long(z) is Some {
        (Some(string_model(ascii_bytes(decimal(model_long(z).unwrap() as int)))), None)
    } else if model_bool(z) is Some {
        (Some(string_model(if model_bool(z).unwrap() { seq![49u8] } else { Seq::empty() })), None)
    } else if model_type(z) == DataType::Array {
        (Some(string_model(seq![65u8, 114u8, 114u8, 97u8, 121u8])), None)
    } else {
        (None, Some(model_type(z)))
    }
}

/// The bit pattern of the double 1 when the condition holds, else of 0.
pub open spec fn double_one_or_zero(c: bool) -> u64 {
    if c {
        0x3ff0_0000_0000_0000
    } else {
        0
    }
}

/// The boolean a string coerces to: false for `""` and `"0"`.
pub open spec fn text_truthy(b: Seq<u8>) -> bool {
    !(b.len() == 0 || (b.len() == 1 && b[0] == 48))
}

impl Zval {
    /// Creates a new, null zval.
    pub fn new() -> (r: Zval)
        ensures
            r@ == null_model(),
    {
        Zval { type_: 1, type_flags: 0, value: ZendValue::Empty }
    }

    /// Makes an identical copy of the zval and everything it holds.
    pub fn duplicate(&self) -> (r: Zval)
        ensures
            r@ == self@,
        decreases self,
    {
        let value = match &self.value {
            ZendValue::Empty => ZendValue::Empty,
            ZendValue::Long(v) => ZendValue::Long(*v),
            ZendValue::Double(b) => ZendValue::Double(*b),
            ZendValue::Str(s) => ZendValue::Str(s.duplicate()),
            ZendValue::Array(h) => ZendValue::Array(h.duplicate()),
            ZendValue::Object(o) => ZendValue::Object(o.duplicate()),
            ZendValue::Resource(r) => ZendValue::Resource(*r),
            ZendValue::Reference(b) => ZendValue::Reference(Box::new(b.duplicate())),
            ZendValue::Indirect(b) => ZendValue::Indirect(Box::new(b.duplicate())),
            ZendValue::Ptr(p) => ZendValue::Ptr(*p),
        };
        Zval { type_: self.type_, type_flags: self.type_flags, value }
    }

    /// Returns the type of the zval.
    pub fn get_type(&self) -> (r: DataType)
        ensures
            r == model_type(self@),
    {
        DataType::from_u32(self.type_ as u32)
    }

    /// Returns true if the zval is a long, false otherwise.
    pub fn is_long(&self) -> (r: bool)
        ensures
            r == (model_type(self@) == DataType::Long),
    {
        match self.get_type() {
            DataType::Long => true,
            _ => false,
        }
    }

    /// Returns true if the zval is null, false otherwise.
    pub fn is_null(&self) -> (r: bool)
        ensures
            r == (model_type(self@) == DataType::Null),
    {
        match self.get_type() {
            DataType::Null => true,
            _ => false,
        }
    }

    /// Returns true if the zval is true, false otherwise.
    pub fn is_true(&self) -> (r: bool)
        ensures
            r == (model_type(self@) == DataType::True),
    {
        match self.get_type() {
            DataType::True => true,
            _ => false,
        }
    }

    /// Returns true if the zval is false, false otherwise.
    pub fn is_false(&self) -> (r: bool)
        ensures
            r == (model_type(self@) == DataType::False),
    {
        match self.get_type() {
            DataType::False => true,
            _ => false,
        }
    }

    /// Returns true if the zval is a bool, false otherwise.
    pub fn is_bool(&self) -> (r: bool)
        ensures
            r == (model_type(self@) == DataType::True || model_type(self@) == DataType::False),
    {
        self.is_true() || self.is_false()
    }

    /// Returns true if the zval is a double, false otherwise.
    pub fn is_double(&self) -> (r: bool)
        ensures
            r == (model_type(self@) == DataType::Double),
    {
        match self.get_type() {
            DataType::Double => true,
            _ => false,
        }
    }

    /// Returns true if the zval is a string, false otherwise.
    pub fn is_string(&self) -> (r: bool)
        ensures
            r == (model_type(self@) == DataType::String),
    {
        match self.get_type() {
            DataType::String => true,
            _ => false,
        }
    }

    /// Returns true if the zval is a resource, false otherwise.
    pub fn is_resource(&self) -> (r: bool)
        ensures
            r == (model_type(self@) == DataType::Resource),
    {
        match self.get_type() {
            DataType::Resource => true,
            _ => false,
        }
    }

    /// Returns true if the zval is an array, false otherwise.
    pub fn is_array(&self) -> (r: bool)
        ensures
            r == (model_type(self@) == DataType::Array),
    {
        match self.get_type() {
            DataType::Array => true,
            _ => false,
        }
    }

    /// Returns true if the zval is an object, false otherwise.
    pub fn is_object(&self) -> (r: bool)
        ensures
            r == model_is_object(self@),
    {
        match self.get_type() {
            DataType::Object(_) => true,
            _ => false,
        }
    }

    /// Returns true if the zval is a reference, false otherwise.
    pub fn is_reference(&self) -> (r: bool)
        ensures
            r == (model_type(self@) == DataType::Reference),
    {
        match self.get_type() {
            DataType::Reference => true,
            _ => false,
        }
    }

    /// Returns true if the zval is an internal indirection, false otherwise.
    pub fn is_indirect(&self) -> (r: bool)
        ensures
            r == (model_type(self@) == DataType::Indirect),
    {
        match self.get_type() {
            DataType::Indirect => true,
            _ => false,
        }
    }

    /// Returns true if the zval contains a pointer, false otherwise.
    pub fn is_ptr(&self) -> (r: bool)
        ensures
            r == (model_type(self@) == DataType::Ptr),
    {
        match self.get_type() {
            DataType::Ptr => true,
            _ => false,
        }
    }

    /// Returns the value of the zval if it is a long.
    pub fn long(&self) -> (r: Option<i64>)
        ensures
            r == model_long(self@),
    {
        if self.is_long() {
            match &self.value {
                ZendValue::Long(v) => Some(*v),
                _ => None,
            }
        } else {
            None
        }
    }

    /// Returns the value of the zval if it is a bool.
    pub fn bool(&self) -> (r: Option<bool>)
        ensures
            r == model_bool(self@),
    {
        if self.is_true() {
            Some(true)
        } else if self.is_false() {
            Some(false)
        } else {
            None
        }
    }

    /// Returns the bit pattern of the value of the zval if it is a double.
    pub fn double_bits(&self) -> (r: Option<u64>)
        ensures
            r == model_double_bits(self@),
    {
        if self.is_double() {
            match &self.value {
                ZendValue::Double(b) => Some(*b),
                _ => None,
            }
        } else {
            None
        }
    }

    /// Returns the value of the zval as a zend string, if it is a string.
    pub fn zend_str(&self) -> (r: Option<&ZendStr>)
        ensures
            r is Some <==> model_str(self@) is Some,
            r matches Some(s) ==> model_str(self@) == Some(s@),
    {
        if self.is_string() {
            match &self.value {
                ZendValue::Str(s) => Some(s),
                _ => None,
            }
        } else {
            None
        }
    }

    /// Returns the value of the zval if it is a string of valid UTF-8.
    pub fn str(&self) -> (r: Option<&str>)
        ensures
            r is Some <==> model_text(self@) is Some,
            r matches Some(s) ==> model_str(self@) == Some(s.spec_bytes()) && s@ == model_text(
                self@,
            ).unwrap(),
    {
        match self.zend_str() {
            Some(zs) => match zs.as_str() {
                Ok(s) => {
                    proof {
                        encode_utf8_decode_utf8(s@);
                    }
                    Some(s)
                },
                Err(_) => None,
            },
            None => None,
        }
    }

    /// Returns the value of the zval if it is a string of valid UTF-8.
    pub fn string(&self) -> (r: Option<String>)
        ensures
            r is Some <==> model_text(self@) is Some,
            r matches Some(s) ==> s@ == model_text(self@).unwrap(),
    {
        match self.str() {
            Some(s) => Some(s.to_owned()),
            None => None,
        }
    }

    /// Returns the handle of the resource, if the zval is a resource.
    pub fn resource(&self) -> (r: Option<u64>)
        ensures
            r == model_resource(self@),
    {
        if self.is_resource() {
            match &self.value {
                ZendValue::Resource(h) => Some(*h),
                _ => None,
            }
        } else {
            None
        }
    }

    /// Returns the underlying hashtable if the zval contains an array.
    pub fn array(&self) -> (r: Option<&ZendHashTable>)
        ensures
            r is Some <==> model_array(self@) is Some,
            r matches Some(h) ==> model_array(self@) == Some(h@),
    {
        if self.is_array() {
            match &self.value {
                ZendValue::Array(h) => Some(h),
                _ => None,
            }
        } else {
            None
        }
    }

    /// Returns the object if the zval contains one.
    pub fn object(&self) -> (r: Option<&ZendObject>)
        ensures
            r is Some <==> model_object(self@) is Some,
            r matches Some(o) ==> model_object(self@) == Some(o@),
    {
        if self.is_object() {
            match &self.value {
                ZendValue::Object(o) => Some(o),
                _ => None,
            }
        } else {
            None
        }
    }

    /// Returns the referenced zval if the zval is a reference.
    pub fn reference(&self) -> (r: Option<&Zval>)
        ensures
            r is Some <==> model_reference(self@) is Some,
            r matches Some(z) ==> model_reference(self@) == Some(z@),
    {
        if self.is_reference() {
            match &self.value {
                ZendValue::Reference(b) => Some(&**b),
                _ => None,
            }
        } else {
            None
        }
    }

    /// Returns the table of the zval mutably, if it is an array; what is
    /// done through the borrow is what the zval holds after.
    pub fn array_mut(&mut self) -> (r: Option<&mut ZendHashTable>)
        ensures
            r is Some <==> model_array(old(self)@) is Some,
            r is None ==> final(self)@ == old(self)@,
            r matches Some(h) ==> model_array(old(self)@) == Some((*h)@) && final(self)@
                == (ZvalModel { value: ValueModel::Array((*final(h))@), ..old(self)@ }),
    {
        if self.is_array() {
            match &mut self.value {
                ZendValue::Array(h) => Some(h),
                _ => None,
            }
        } else {
            None
        }
    }

    /// Returns the object of the zval mutably, if it is an object.
    pub fn object_mut(&mut self) -> (r: Option<&mut ZendObject>)
        ensures
            r is Some <==> model_object(old(self)@) is Some,
            r is None ==> final(self)@ == old(self)@,
            r matches Some(o) ==> model_object(old(self)@) == Some((*o)@) && final(self)@
                == (ZvalModel { value: ValueModel::Object((*final(o))@), ..old(self)@ }),
    {
        if self.is_object() {
            match &mut self.value {
                ZendValue::Object(o) => Some(o),
                _ => None,
            }
        } else {
            None
        }
    }

    /// Returns the referenced zval mutably, if the zval is a reference.
    pub fn reference_mut(&mut self) -> (r: Option<&mut Zval>)
        ensures
            r is Some <==> model_reference(old(self)@) is Some,
            r is None ==> final(self)@ == old(self)@,
            r matches Some(z) ==> model_reference(old(self)@) == Some((*z)@) && final(self)@
                == (ZvalModel { value: ValueModel::Reference(Box::new((*final(z))@)), ..old(self)@ }),
    {
        if self.is_reference() {
            match &mut self.value {
                ZendValue::Reference(b) => Some(&mut **b),
                _ => None,
            }
        } else {
            None
        }
    }

    /// Returns the target zval mutably, if the zval is an internal
    /// indirection.
    pub fn indirect_mut(&mut self) -> (r: Option<&mut Zval>)
        ensures
            r is Some <==> model_indirect(old(self)@) is Some,
            r is None ==> final(self)@ == old(self)@,
            r matches Some(z) ==> model_indirect(old(self)@) == Some((*z)@) && final(self)@
                == (ZvalModel { value: ValueModel::Indirect(Box::new((*final(z))@)), ..old(self)@ }),
    {
        if self.is_indirect() {
            match &mut self.value {
                ZendValue::Indirect(b) => Some(&mut **b),
                _ => None,
            }
        } else {
            None
        }
    }

    /// Returns the zval a reference or an indirection points to, mutably, or
    /// the zval itself.
    pub fn dereference_mut(&mut self) -> (r: &mut Zval)
        ensures
            (*r)@ == model_deref(old(self)@),
            model_reference(old(self)@) is Some ==> final(self)@ == (ZvalModel {
                value: ValueModel::Reference(Box::new((*final(r))@)),
                ..old(self)@
            }),
            model_reference(old(self)@) is None && model_indirect(old(self)@) is Some ==> final(self)@
                == (ZvalModel { value: ValueModel::Indirect(Box::new((*final(r))@)), ..old(self)@ }),
            model_reference(old(self)@) is None && model_indirect(old(self)@) is None ==> final(self)@
                == (*final(r))@,
    {
        let is_ref = self.is_reference() && match &self.value {
            ZendValue::Reference(_) => true,
            _ => false,
        };
        let is_ind = !is_ref && self.is_indirect() && match &self.value {
            ZendValue::Indirect(_) => true,
            _ => false,
        };
        if is_ref || is_ind {
            match &mut self.value {
                ZendValue::Reference(b) => &mut **b,
                ZendValue::Indirect(b) => &mut **b,
                _ => vstd::pervasive::unreached(),
            }
        } else {
            self
        }
    }

    /// Returns the target zval if the zval is an internal indirection.
    pub fn indirect(&self) -> (r: Option<&Zval>)
        ensures
            r is Some <==> model_indirect(self@) is Some,
            r matches Some(z) ==> model_indirect(self@) == Some(z@),
    {
        if self.is_indirect() {
            match &self.value {
                ZendValue::Indirect(b) => Some(&**b),
                _ => None,
            }
        } else {
            None
        }
    }

    /// Returns the address the zval holds, if it is a pointer.
    pub fn ptr(&self) -> (r: Option<usize>)
        ensures
            r == model_ptr(self@),
    {
        if self.is_ptr() {
            match &self.value {
                ZendValue::Ptr(p) => Some(*p),
                _ => None,
            }
        } else {
            None
        }
    }

    /// Dereferences the zval, if it is a reference or an indirection.
    pub fn dereference(&self) -> (r: &Zval)
        ensures
            r@ == model_deref(self@),
    {
        match self.reference() {
            Some(z) => z,
            None => match self.indirect() {
                Some(z) => z,
                None => self,
            },
        }
    }

    /// Returns true if the zval is an object whose class implements
    /// `Traversable`, false otherwise.
    pub fn is_traversable(&self) -> (r: bool)
        ensures
            r == (match model_object(self@) {
                Some(o) => crate::object::model_is_traversable(o),
                None => false,
            }),
    {
        match self.object() {
            None => false,
            Some(obj) => obj.is_traversable(),
        }
    }

    /// Returns true if the zval is iterable: an array or a traversable object.
    pub fn is_iterable(&self) -> (r: bool)
        ensures
            r == (model_type(self@) == DataType::Array || match model_object(self@) {
                Some(o) => crate::object::model_is_traversable(o),
                None => false,
            }),
    {
        self.is_array() || self.is_traversable()
    }

    /// Sets the value of the zval as a Zend string.
    pub fn set_zend_string(&mut self, val: ZendStr)
        ensures
            final(self)@ == string_model(val@),
    {
        *self = Zval { type_: 6, type_flags: 1, value: ZendValue::Str(val) };
    }

    /// Sets the value of the zval as a string.
    pub fn set_string(&mut self, val: &str, persistent: bool) -> (r: Result<(), Error>)
        ensures
            r is Ok,
            final(self)@ == string_model(val.spec_bytes()),
    {
        self.set_zend_string(ZendStr::from_str(val, persistent));
        Ok(())
    }

    /// Sets the value of the zval as an interned string.
    pub fn set_interned_string(&mut self, val: &str, persistent: bool) -> (r: Result<(), Error>)
        ensures
            r is Ok,
            final(self)@ == string_model(val.spec_bytes()),
    {
        self.set_zend_string(ZendStr::new_interned(val.as_bytes(), persistent));
        Ok(())
    }

    /// Sets the value of the zval as a long.
    pub fn set_long(&mut self, val: i64)
        ensures
            final(self)@ == long_model(val),
    {
        *self = Zval { type_: 4, type_flags: 0, value: ZendValue::Long(val) };
    }

    /// Sets the value of the zval as a double, given by its bit pattern.
    pub fn set_double_bits(&mut self, bits: u64)
        ensures
            final(self)@ == double_model(bits),
    {
        *self = Zval { type_: 5, type_flags: 0, value: ZendValue::Double(bits) };
    }

    /// Sets the value of the zval as a boolean.
    pub fn set_bool(&mut self, val: bool)
        ensures
            final(self)@ == bool_model(val),
    {
        *self = Zval { type_: if val { 3 } else { 2 }, type_flags: 0, value: ZendValue::Empty };
    }

    /// Sets the value of the zval as null.
    pub fn set_null(&mut self)
        ensures
            final(self)@ == null_model(),
    {
        *self = Zval::new();
    }

    /// Sets the value of the zval as a resource.
    pub fn set_resource(&mut self, val: u64)
        ensures
            final(self)@ == resource_model(val),
    {
        *self = Zval { type_: 9, type_flags: 1, value: ZendValue::Resource(val) };
    }

    /// Sets the value of the zval as a reference to an object, counting the
    /// new reference on the object.
    pub fn set_object(&mut self, val: &mut ZendObject)
        requires
            old(val)@.refcount < u32::MAX,
        ensures
            final(val)@ == (ObjectModel { refcount: (old(val)@.refcount + 1) as u32, ..old(val)@ }),
            final(self)@ == object_zval_model(final(val)@),
    {
        val.inc_count();
        *self = Zval { type_: 8, type_flags: 3, value: ZendValue::Object(val.duplicate()) };
    }

    /// A zval holding the object, taking it over with its reference.
    pub(crate) fn from_object(val: ZendObject) -> (r: Zval)
        ensures
            r@ == object_zval_model(val@),
    {
        Zval { type_: 8, type_flags: 3, value: ZendValue::Object(val) }
    }

    /// Sets the value of the zval as a reference to the target zval.
    pub fn set_reference(&mut self, target: Zval)
        ensures
            final(self)@ == (ZvalModel {
                tag: 10,
                flags: 1,
                value: ValueModel::Reference(Box::new(target@)),
            }),
    {
        *self = Zval { type_: 10, type_flags: 1, value: ZendValue::Reference(Box::new(target)) };
    }

    /// Sets the value of the zval as an array.
    pub fn set_hashtable(&mut self, val: ZendHashTable)
        ensures
            final(self)@ == array_zval_model(val@),
    {
        *self = Zval { type_: 7, type_flags: 3, value: ZendValue::Array(val) };
    }

    /// Sets the value of the zval as a pointer.
    pub fn set_ptr(&mut self, ptr: usize)
        ensures
            final(self)@ == ptr_model(ptr),
    {
        *self = Zval { type_: 13, type_flags: 0, value: ZendValue::Ptr(ptr) };
    }

    /// Coerces the value into a string, following PHP's type juggling:
    /// strings stay, a double becomes `double_text` (its rendering, which the
    /// caller computes), a long its decimal text, true `"1"`, false the empty
    /// string, an array `"Array"`; any other value fails.
    pub fn coerce_into_string(&mut self, double_text: &str) -> (r: Result<(), Error>)
        ensures
            ({
                let (nv, err) = coerce_string_model(old(self)@, double_text.spec_bytes());
                &&& r is Ok <==> err is None
                &&& (nv is Some ==> final(self)@ == nv.unwrap())
                &&& (nv is None ==> final(self)@ == old(self)@)
                &&& (r matches Err(e) ==> e == Error::ZvalConversion(err.unwrap()))
            }),
    {
        proof {
            lemma_tag_types();
        }
        if self.is_string() {
            return Ok(());
        }
        if let Some(_) = self.double_bits() {
            self.set_zend_string(ZendStr::new(double_text.as_bytes(), false));
            return Ok(());
        } else if let Some(val) = self.long() {
            let text = i64_to_string(val);
            let bytes = text.as_str().as_bytes();
            proof {
                lemma_decimal_ascii(val as int);
                is_ascii_chars_encode_utf8(text@);
                assert(bytes@ =~= ascii_bytes(decimal(val as int)));
            }
            self.set_zend_string(ZendStr::new(bytes, false));
            return Ok(());
        } else if let Some(val) = self.bool() {
            if val {
                let v: Vec<u8> = vec![49u8];
                assert(v@ =~= seq![49u8]);
                self.set_zend_string(ZendStr::new(v.as_slice(), false));
            } else {
                let v: Vec<u8> = Vec::new();
                assert(v@ =~= Seq::<u8>::empty());
                self.set_zend_string(ZendStr::new(v.as_slice(), false));
            }
            return Ok(());
        } else if self.is_array() {
            let v: Vec<u8> = vec![65u8, 114u8, 114u8, 97u8, 121u8];
            assert(v@ =~= seq![65u8, 114u8, 114u8, 97u8, 121u8]);
            self.set_zend_string(ZendStr::new(v.as_slice(), false));
            return Ok(());
        }
        Err(Error::ZvalConversion(self.get_type()))
    }

    /// Coerces the value into a boolean, following PHP's type juggling:
    /// booleans stay, a long is true unless zero, a double is true unless
    /// zero, a string is true unless `""` or `"0"`, an array is true unless
    /// empty; any other value fails and is left as it is.
    pub fn coerce_into_bool(&mut self) -> (r: Result<(), Error>)
        ensures
            ({
                let z = old(self)@;
                let is_b = model_type(z) == DataType::True || model_type(z) == DataType::False;
                &&& is_b ==> r is Ok && final(self)@ == z
                &&& !is_b && model_long(z) is Some ==> r is Ok
                    && final(self)@ == bool_model(model_long(z).unwrap() != 0)
                &&& !is_b && model_long(z) is None && model_double_bits(z) is Some ==> r is Ok
                    && final(self)@ == bool_model(double_nonzero(model_double_bits(z).unwrap()))
                &&& !is_b && model_long(z) is None && model_double_bits(z) is None && model_text(z) is Some
                    ==> r is Ok && final(self)@ == bool_model(text_truthy(model_str(z).unwrap()))
                &&& !is_b && model_long(z) is None && model_double_bits(z) is None && model_text(z) is None
                    ==> (match model_array(z) {
                        Some(a) => r is Ok && final(self)@ == bool_model(a.entries.len() != 0),
                        None => r == Err::<(), Error>(Error::ZvalConversion(model_type(z)))
                            && final(self)@ == z,
                    })
            }),
    {
        proof {
            lemma_tag_types();
        }
        if self.is_bool() {
            return Ok(());
        }
        if let Some(val) = self.long() {
            self.set_bool(val != 0);
            return Ok(());
        } else if let Some(val) = self.double_bits() {
            self.set_bool(val & 0x7fff_ffff_ffff_ffff != 0);
            return Ok(());
        } else if let Some(val) = self.str() {
            let b = val.as_bytes();
            let truthy = !(b.len() == 0 || (b.len() == 1 && b[0] == 48));
            self.set_bool(truthy);
            return Ok(());
        } else if let Some(val) = self.array() {
            let n = val.len();
            self.set_bool(n != 0);
            return Ok(());
        }
        Err(Error::ZvalConversion(self.get_type()))
    }

    /// Coerces the value into a long, following PHP's type juggling: longs
    /// stay, a double becomes `double_as_long` (its conversion, which the
    /// caller computes), a string is parsed as a decimal integer or fails, a
    /// boolean becomes 1 or 0, an array 1 or 0 as it is non-empty or not; any
    /// other value fails and is left as it is.
    pub fn coerce_into_long(&mut self, double_as_long: i64) -> (r: Result<(), Error>)
        ensures
            model_type(old(self)@) == DataType::Long ==> r is Ok && final(self)@ == old(self)@,
            model_type(old(self)@) != DataType::Long && model_double_bits(old(self)@) is Some ==> r is Ok
                && final(self)@ == long_model(double_as_long),
            model_type(old(self)@) != DataType::Long && model_double_bits(old(self)@) is None && model_text(
                old(self)@,
            ) is Some ==> match spec_parse_i64(model_str(old(self)@).unwrap()) {
                Some(v) => r is Ok && final(self)@ == long_model(v),
                None => r == Err::<(), Error>(Error::ZvalConversion(DataType::String))
                    && final(self)@ == old(self)@,
            },
            model_type(old(self)@) != DataType::Long && model_double_bits(old(self)@) is None && model_text(
                old(self)@,
            ) is None ==> (match (model_bool(old(self)@), model_array(old(self)@)) {
                (Some(b), _) => r is Ok && final(self)@ == long_model(if b { 1 } else { 0 }),
                (None, Some(a)) => r is Ok && final(self)@ == long_model(
                    if a.entries.len() > 0 { 1 } else { 0 },
                ),
                (None, None) => r == Err::<(), Error>(Error::ZvalConversion(model_type(old(self)@)))
                    && final(self)@ == old(self)@,
            }),
    {
        proof {
            lemma_tag_types();
        }
        if self.is_long() {
            return Ok(());
        }
        if let Some(_) = self.double_bits() {
            self.set_long(double_as_long);
            return Ok(());
        } else if let Some(val) = self.str() {
            match parse_i64(val.as_bytes()) {
                Some(v) => {
                    self.set_long(v);
                    return Ok(());
                },
                None => {
                    return Err(Error::ZvalConversion(self.get_type()));
                },
            }
        } else if let Some(val) = self.bool() {
            self.set_long(if val { 1 } else { 0 });
            return Ok(());
        } else if let Some(val) = self.array() {
            let n = val.len();
            self.set_long(if n > 0 { 1 } else { 0 });
            return Ok(());
        }
        Err(Error::ZvalConversion(self.get_type()))
    }

    /// Coerces the value into a double, following PHP's type juggling:
    /// doubles stay, a long becomes `long_as_double` (the bits of its
    /// conversion, which the caller computes), a UTF-8 string becomes
    /// `parsed_text` (the bits of the double its text parses as, which the
    /// caller computes) or fails when it does not parse, a boolean or an
    /// array becomes 1 or 0; any other value fails and is left as it is.
    pub fn coerce_into_double(&mut self, long_as_double: u64, parsed_text: Option<u64>) -> (r: Result<(), Error>)
        ensures
            ({
                let z = old(self)@;
                if model_type(z) == DataType::Double {
                    r is Ok && final(self)@ == z
                } else if model_long(z) is Some {
                    r is Ok && final(self)@ == double_model(long_as_double)
                } else if model_text(z) is Some {
                    match parsed_text {
                        Some(b) => r is Ok && final(self)@ == double_model(b),
                        None => r == Err::<(), Error>(Error::ZvalConversion(DataType::String))
                            && final(self)@ == z,
                    }
                } else if model_bool(z) is Some {
                    r is Ok && final(self)@ == double_model(double_one_or_zero(model_bool(z).unwrap()))
                } else if model_array(z) is Some {
                    r is Ok && final(self)@ == double_model(
                        double_one_or_zero(model_array(z).unwrap().entries.len() > 0),
                    )
                } else {
                    r == Err::<(), Error>(Error::ZvalConversion(model_type(z))) && final(self)@ == z
                }
            }),
    {
        proof {
            lemma_tag_types();
        }
        if self.is_double() {
            return Ok(());
        }
        if let Some(_) = self.long() {
            self.set_double_bits(long_as_double);
            return Ok(());
        } else if let Some(_) = self.str() {
            match parsed_text {
                Some(b) => {
                    self.set_double_bits(b);
                    return Ok(());
                },
                None => {
                    return Err(Error::ZvalConversion(self.get_type()));
                },
            }
        } else if let Some(b) = self.bool() {
            self.set_double_bits(if b { 0x3ff0_0000_0000_0000u64 } else { 0u64 });
            return Ok(());
        } else if let Some(val) = self.array() {
            let n = val.len();
            self.set_double_bits(if n > 0 { 0x3ff0_0000_0000_0000u64 } else { 0u64 });
            return Ok(());
        }
        Err(Error::ZvalConversion(self.get_type()))
    }
}

/// The decimal text of an integer is made of ASCII characters.
pub proof fn lemma_decimal_ascii(v: int)
    ensures
        is_ascii_chars(decimal(v)),
{
    if v < 0 {
        lemma_nat_digits_ascii((-v) as nat);
        assert forall|i: int| 0 <= i < decimal(v).len() implies '\0' <= #[trigger] decimal(v)[i]
            <= '\u{7f}' by {
            if i > 0 {
                assert(decimal(v)[i] == crate::text::nat_digits((-v) as nat)[i - 1]);
            }
        }
    } else {
        lemma_nat_digits_ascii(v as nat);
    }
}

/// Decimal digits are ASCII characters.
proof fn lemma_nat_digits_ascii(n: nat)
    ensures
        is_ascii_chars(crate::text::nat_digits(n)),
    decreases n,
{
    if n >= 10 {
        lemma_nat_digits_ascii(n / 10);
    }
}

/// Reading a zval back gives what was stored: the integer of a long zval,
/// the boolean of a boolean zval, the bit pattern of a double zval, the
/// bytes of a string zval, the table of an array zval, the object of an
/// object zval, the handle of a resource zval and the address of a pointer
/// zval.
pub proof fn law_read_after_set(v: i64, b: bool, bits: u64, bytes: Seq<u8>, a: ArrayModel, o: ObjectModel, res: u64, p: usize)
    ensures
        model_long(long_model(v)) == Some(v),
        model_bool(bool_model(b)) == Some(b),
        model_double_bits(double_model(bits)) == Some(bits),
        model_str(string_model(bytes)) == Some(bytes),
        model_array(array_zval_model(a)) == Some(a),
        model_object(object_zval_model(o)) == Some(o),
        model_resource(resource_model(res)) == Some(res),
        model_ptr(ptr_model(p)) == Some(p),
        model_type(null_model()) == DataType::Null,
{
    lemma_tag_types();
}

/// The zvals the setters make are well formed, and a reference to a well
/// formed zval is well formed.
pub proof fn law_set_zvals_wf(v: i64, b: bool, bits: u64, bytes: Seq<u8>, a: ArrayModel, o: ObjectModel, res: u64, p: usize, target: ZvalModel)
    ensures
        model_wf(null_model()),
        model_wf(long_model(v)),
        model_wf(bool_model(b)),
        model_wf(double_model(bits)),
        model_wf(string_model(bytes)),
        model_wf(array_zval_model(a)),
        model_wf(object_zval_model(o)),
        model_wf(resource_model(res)),
        model_wf(ptr_model(p)),
        model_wf(target) ==> model_wf(
            ZvalModel { tag: 10, flags: 1, value: ValueModel::Reference(Box::new(target)) },
        ),
{
    lemma_tag_types();
}

/// Of a well formed zval: a reference holds the zval it refers to and
/// dereferences to it; a zval that is neither a reference nor indirect
/// dereferences to itself.
pub proof fn law_dereference(z: ZvalModel)
    requires
        model_wf(z),
    ensures
        model_type(z) == DataType::Reference ==> model_reference(z) is Some && model_deref(z)
            == model_reference(z).unwrap() && model_wf(model_deref(z)),
        model_type(z) != DataType::Reference && model_type(z) != DataType::Indirect ==> model_deref(z)
            == z,
{
}

/// Coercing an array into a string always succeeds and gives the string
/// `"Array"`, whatever the array holds.
pub proof fn law_array_coerces_to_array_text(z: ZvalModel, double_text: Seq<u8>)
    requires
        model_array(z) is Some,
    ensures
        coerce_string_model(z, double_text).1 is None,
        coerce_string_model(z, double_text).0 == Some(string_model("Array".spec_bytes())),
        model_text(coerce_string_model(z, double_text).0.unwrap()) == Some("Array"@),
{
    lemma_tag_types();
    reveal_strlit("Array");
    vstd::string::is_ascii_spec_bytes("Array");
    assert("Array".spec_bytes() =~= seq![65u8, 114u8, 114u8, 97u8, 121u8]);
    law_text_after_set("Array"@);
}

/// A string is truthy unless it is `""` or `"0"`: coercing a string zval
/// into a boolean gives false exactly for those two texts.
pub proof fn law_string_truthiness(b: Seq<u8>, z: ZvalModel)
    ensures
        text_truthy(b) == (b != "0".spec_bytes() && b != "".spec_bytes()),
        model_text(z) matches Some(s) ==> model_truthy_text(z) == (s != "0"@ && s != ""@),
{
    reveal_strlit("0");
    reveal_strlit("");
    vstd::string::is_ascii_spec_bytes("0");
    vstd::string::is_ascii_spec_bytes("");
    assert("0".spec_bytes() =~= seq![48u8]);
    assert("".spec_bytes() =~= Seq::<u8>::empty());
    if b.len() == 1 && b[0] == 48 {
        assert(b =~= seq![48u8]);
    }
    if b.len() == 0 {
        assert(b =~= Seq::<u8>::empty());
    }
    if model_text(z) is Some {
        let bytes = model_str(z).unwrap();
        let s = model_text(z).unwrap();
        vstd::utf8::decode_utf8_encode_utf8(bytes);
        assert(encode_utf8(s) == bytes);
        assert(encode_utf8("0"@) == "0".spec_bytes());
        assert(encode_utf8(""@) == "".spec_bytes());
        vstd::utf8::encode_utf8_decode_utf8("0"@);
        vstd::utf8::encode_utf8_decode_utf8(""@);
        vstd::utf8::encode_utf8_decode_utf8(s);
        let bb = bytes;
        if bb.len() == 1 && bb[0] == 48 {
            assert(bb =~= seq![48u8]);
        }
        if bb.len() == 0 {
            assert(bb =~= Seq::<u8>::empty());
        }
    }
}

/// Coercing a boolean into a string gives `"1"` for true and the empty
/// string for false, and coercing a long gives its decimal text.
pub proof fn law_scalar_string_coercion(b: bool, v: i64, double_text: Seq<u8>)
    ensures
        coerce_string_model(bool_model(b), double_text).1 is None,
        model_text(coerce_string_model(bool_model(b), double_text).0.unwrap()) == Some(
            if b {
                "1"@
            } else {
                ""@
            },
        ),
        coerce_string_model(long_model(v), double_text).1 is None,
        model_text(coerce_string_model(long_model(v), double_text).0.unwrap()) == Some(
            decimal(v as int),
        ),
{
    lemma_tag_types();
    reveal_strlit("1");
    reveal_strlit("");
    vstd::string::is_ascii_spec_bytes("1");
    vstd::string::is_ascii_spec_bytes("");
    assert("1".spec_bytes() =~= seq![49u8]);
    assert("".spec_bytes() =~= Seq::<u8>::empty());
    law_text_after_set("1"@);
    law_text_after_set(""@);
    lemma_decimal_ascii(v as int);
    is_ascii_chars_encode_utf8(decimal(v as int));
    assert(ascii_bytes(decimal(v as int)) =~= encode_utf8(decimal(v as int)));
    law_text_after_set(decimal(v as int));
}

/// A double is truthy unless it is zero of either sign: only the bit
/// patterns of `0.0` and `-0.0` read as false.
pub proof fn law_double_truthiness(bits: u64)
    ensures
        double_nonzero(bits) == (bits != 0 && bits != 0x8000_0000_0000_0000),
{
    assert((bits & 0x7fff_ffff_ffff_ffffu64 != 0) == (bits != 0 && bits != 0x8000_0000_0000_0000u64))
        by (bit_vector);
}

/// The boolean a string zval coerces to, read from its bytes.
pub open spec fn model_truthy_text(z: ZvalModel) -> bool {
    text_truthy(model_str(z).unwrap())
}

/// A string zval made from text reads back as that text.
pub proof fn law_text_after_set(s: Seq<char>)
    ensures
        model_text(string_model(encode_utf8(s))) == Some(s),
{
    lemma_tag_types();
    vstd::utf8::encode_utf8_valid_utf8(s);
    vstd::utf8::encode_utf8_decode_utf8(s);
}

} // verus!
