//! Properties a Rust value declares to PHP: fields, and properties served by
//! accessor methods.

use vstd::prelude::*;
use vstd::string::*;
use vstd::utf8::*;

use crate::convert::{FromZval, IntoZval};
use crate::error::Error;
use crate::handlers::RegisteredClass;
use crate::string::bytes_eq;
use crate::flags::DataType;
use crate::zval::{
    bool_model, long_model, model_bool, model_long, model_text, model_type, string_model, Zval,
    ZvalModel,
};

verus! {

/// A value that can back a property field: reading converts a copy of it
/// into a zval, writing converts a zval back into it.
pub trait Prop: IntoZval + FromZval {
    /// Writes a copy of the value into the zval.
    fn get(&self, zv: &mut Zval) -> (r: Result<(), Error>)
        ensures
            r is Ok <==> self.zval_of(false) is Some,
            r is Ok ==> final(zv)@ == self.zval_of(false).unwrap(),
            r is Err ==> final(zv)@ == old(zv)@,
            r matches Err(e) ==> e == self.conversion_error(),
    ;

    /// Replaces the value with what the zval reads as; fails with
    /// [`Error::ZvalConversion`] of the zval's type, leaving the value, when
    /// the zval does not read as such a value.
    fn set(&mut self, zv: &Zval) -> (r: Result<(), Error>)
        ensures
            r is Ok <==> Self::accepts(zv@),
            r is Ok ==> Self::read_as(zv@, *final(self)),
            r is Err ==> *final(self) == *old(self),
            r matches Err(e) ==> e == Error::ZvalConversion(model_type(zv@)),
    ;
}

impl Prop for i64 {
    fn get(&self, zv: &mut Zval) -> (r: Result<(), Error>) {
        (*self).set_zval(zv, false)
    }

    fn set(&mut self, zv: &Zval) -> (r: Result<(), Error>) {
        match <i64 as FromZval>::from_zval(zv) {
            Some(v) => {
                *self = v;
                Ok(())
            },
            None => Err(Error::ZvalConversion(zv.get_type())),
        }
    }
}

impl Prop for i32 {
    fn get(&self, zv: &mut Zval) -> (r: Result<(), Error>) {
        (*self).set_zval(zv, false)
    }

    fn set(&mut self, zv: &Zval) -> (r: Result<(), Error>) {
        match <i32 as FromZval>::from_zval(zv) {
            Some(v) => {
                *self = v;
                Ok(())
            },
            None => Err(Error::ZvalConversion(zv.get_type())),
        }
    }
}

impl Prop for u32 {
    fn get(&self, zv: &mut Zval) -> (r: Result<(), Error>) {
        (*self).set_zval(zv, false)
    }

    fn set(&mut self, zv: &Zval) -> (r: Result<(), Error>) {
        match <u32 as FromZval>::from_zval(zv) {
            Some(v) => {
                *self = v;
                Ok(())
            },
            None => Err(Error::ZvalConversion(zv.get_type())),
        }
    }
}

impl Prop for bool {
    fn get(&self, zv: &mut Zval) -> (r: Result<(), Error>) {
        (*self).set_zval(zv, false)
    }

    fn set(&mut self, zv: &Zval) -> (r: Result<(), Error>) {
        match <bool as FromZval>::from_zval(zv) {
            Some(v) => {
                *self = v;
                Ok(())
            },
            None => Err(Error::ZvalConversion(zv.get_type())),
        }
    }
}

impl Prop for String {
    fn get(&self, zv: &mut Zval) -> (r: Result<(), Error>) {
        self.clone().set_zval(zv, false)
    }

    fn set(&mut self, zv: &Zval) -> (r: Result<(), Error>) {
        match <String as FromZval>::from_zval(zv) {
            Some(v) => {
                *self = v;
                Ok(())
            },
            None => Err(Error::ZvalConversion(zv.get_type())),
        }
    }
}

/// The value of a property field, of one of the types a field can have.
#[derive(Debug)]
pub enum FieldValue {
    Long(i64),
    Int(i32),
    UInt(u32),
    Bool(bool),
    Str(String),
}

/// Abstract field value.
pub enum FieldModel {
    Long(i64),
    Int(i32),
    UInt(u32),
    Bool(bool),
    Str(Seq<char>),
}

impl View for FieldValue {
    type V = FieldModel;

    open spec fn view(&self) -> FieldModel {
        match self {
            FieldValue::Long(v) => FieldModel::Long(*v),
            FieldValue::Int(v) => FieldModel::Int(*v),
            FieldValue::UInt(v) => FieldModel::UInt(*v),
            FieldValue::Bool(v) => FieldModel::Bool(*v),
            FieldValue::Str(v) => FieldModel::Str(v@),
        }
    }
}

/// The zval a field reads as.
pub open spec fn field_zval(f: FieldModel) -> ZvalModel {
    match f {
        FieldModel::Long(v) => long_model(v),
        FieldModel::Int(v) => long_model(v as i64),
        FieldModel::UInt(v) => long_model(v as i64),
        FieldModel::Bool(v) => bool_model(v),
        FieldModel::Str(v) => string_model(encode_utf8(v)),
    }
}

/// The field after writing the zval to it, keeping the field's type, or
/// `None` when the zval does not convert to that type.
pub open spec fn field_write(f: FieldModel, z: ZvalModel) -> Option<FieldModel> {
    match f {
        FieldModel::Long(_) => match model_long(z) {
            Some(v) => Some(FieldModel::Long(v)),
            None => None,
        },
        FieldModel::Int(_) => match model_long(z) {
            Some(v) => if i32::MIN <= v <= i32::MAX {
                Some(FieldModel::Int(v as i32))
            } else {
                None
            },
            None => None,
        },
        FieldModel::UInt(_) => match model_long(z) {
            Some(v) => if 0 <= v <= u32::MAX {
                Some(FieldModel::UInt(v as u32))
            } else {
                None
            },
            None => None,
        },
        FieldModel::Bool(_) => match model_bool(z) {
            Some(v) => Some(FieldModel::Bool(v)),
            None => None,
        },
        FieldModel::Str(_) => match model_text(z) {
            Some(v) => Some(FieldModel::Str(v)),
            None => None,
        },
    }
}

/// The `Debug` rendering of a data type read from a type tag, which never
/// names a class.
pub open spec fn tag_type_debug(t: DataType) -> Seq<char> {
    match t {
        DataType::Object(_) => "Object(None)"@,
        DataType::Undef => "Undef"@,
        DataType::Null => "Null"@,
        DataType::False => "False"@,
        DataType::True => "True"@,
        DataType::Long => "Long"@,
        DataType::Double => "Double"@,
        DataType::String => "String"@,
        DataType::Array => "Array"@,
        DataType::Resource => "Resource"@,
        DataType::Reference => "Reference"@,
        DataType::Callable => "Callable"@,
        DataType::ConstantExpression => "ConstantExpression"@,
        DataType::Void => "Void"@,
        DataType::Mixed => "Mixed"@,
        DataType::Bool => "Bool"@,
        DataType::Ptr => "Ptr"@,
        DataType::Indirect => "Indirect"@,
        DataType::Iterable => "Iterable"@,
    }
}

/// The message of a write to a field that fails because the zval, of type
/// `t`, does not convert to the field's type: the failure, then the
/// conversion error as `Debug` prints it.
pub open spec fn field_write_message(t: DataType) -> Seq<char> {
    "Failed to set property value: ZvalConversion("@ + tag_type_debug(t) + ")"@
}

/// Renders a data type read from a type tag as `Debug` prints it.
fn tag_type_debug_text(t: DataType) -> (r: String)
    requires
        !(t matches DataType::Object(Some(_))),
    ensures
        r@ == tag_type_debug(t),
{
    let s = match t {
        DataType::Object(_) => "Object(None)",
        DataType::Undef => "Undef",
        DataType::Null => "Null",
        DataType::False => "False",
        DataType::True => "True",
        DataType::Long => "Long",
        DataType::Double => "Double",
        DataType::String => "String",
        DataType::Array => "Array",
        DataType::Resource => "Resource",
        DataType::Reference => "Reference",
        DataType::Callable => "Callable",
        DataType::ConstantExpression => "ConstantExpression",
        DataType::Void => "Void",
        DataType::Mixed => "Mixed",
        DataType::Bool => "Bool",
        DataType::Ptr => "Ptr",
        DataType::Indirect => "Indirect",
        DataType::Iterable => "Iterable",
    };
    s.to_string()
}

/// The message of a failed write of a zval of type `t` to a field.
fn field_write_failure(t: DataType) -> (r: String)
    requires
        !(t matches DataType::Object(Some(_))),
    ensures
        r@ == field_write_message(t),
{
    let name = tag_type_debug_text(t);
    let mut m = "Failed to set property value: ZvalConversion(".to_string();
    m.append(name.as_str());
    m.append(")");
    m
}

/// A type read from a tag never names a class.
proof fn lemma_tag_type_unnamed(z: ZvalModel)
    ensures
        !(model_type(z) matches DataType::Object(Some(_))),
{
}

impl FieldValue {
    /// Writes the field's value into the zval.
    pub fn get(&self, zv: &mut Zval)
        ensures
            final(zv)@ == field_zval(self@),
    {
        let _ = match self {
            FieldValue::Long(v) => v.get(zv),
            FieldValue::Int(v) => v.get(zv),
            FieldValue::UInt(v) => v.get(zv),
            FieldValue::Bool(v) => v.get(zv),
            FieldValue::Str(v) => v.get(zv),
        };
    }

    /// Replaces the field's value with what the zval converts to, keeping
    /// the field's type; fails with the conversion error, leaving the field,
    /// when the zval does not convert to that type.
    pub fn set(&mut self, zv: &Zval) -> (r: Result<(), Error>)
        ensures
            r is Ok <==> field_write(old(self)@, zv@) is Some,
            r is Ok ==> field_write(old(self)@, zv@) == Some(final(self)@),
            r is Err ==> final(self)@ == old(self)@,
            r matches Err(e) ==> e == Error::ZvalConversion(model_type(zv@)),
    {
        match self {
            FieldValue::Long(v) => v.set(zv),
            FieldValue::Int(v) => v.set(zv),
            FieldValue::UInt(v) => v.set(zv),
            FieldValue::Bool(v) => v.set(zv),
            FieldValue::Str(v) => v.set(zv),
        }
    }
}

/// A declared property.
#[derive(Debug)]
pub enum Property {
    /// A field of the Rust value: reading gives its value, writing converts
    /// the zval to the field's type.
    Field(FieldValue),
    /// A property served by a pair of accessor methods over a backing value:
    /// the value the getter returns, if there is a getter, and whether
    /// there is a setter, which replaces the backing value.
    Method { get: Option<Zval>, set: bool },
}

/// Abstract declared property.
pub enum PropertyModel {
    Field(FieldModel),
    Method { get: Option<ZvalModel>, set: bool },
}

impl View for Property {
    type V = PropertyModel;

    open spec fn view(&self) -> PropertyModel {
        match self {
            Property::Field(f) => PropertyModel::Field(f@),
            Property::Method { get, set } => PropertyModel::Method {
                get: match get {
                    Some(z) => Some(z@),
                    None => None,
                },
                set: *set,
            },
        }
    }
}

/// The message of a read through a property without a getter.
pub open spec fn no_getter_message() -> Seq<char> {
    "No getter available for this property."@
}

/// The message of a write through a property without a setter.
pub open spec fn no_setter_message() -> Seq<char> {
    "No setter available for this property."@
}

/// What reading the property gives.
pub open spec fn property_read(p: PropertyModel) -> Result<ZvalModel, Seq<char>> {
    match p {
        PropertyModel::Field(f) => Ok(field_zval(f)),
        PropertyModel::Method { get: Some(v), set: _ } => Ok(v),
        PropertyModel::Method { get: None, set: _ } => Err(no_getter_message()),
    }
}

/// What writing the zval to the property gives: the property after the
/// write, or the message of the failure.
pub open spec fn property_write(p: PropertyModel, value: ZvalModel) -> Result<PropertyModel, Seq<char>> {
    match p {
        PropertyModel::Field(f) => match field_write(f, value) {
            Some(nf) => Ok(PropertyModel::Field(nf)),
            None => Err(field_write_message(model_type(value))),
        },
        PropertyModel::Method { get: _, set: true } => Ok(
            PropertyModel::Method { get: Some(value), set: true },
        ),
        PropertyModel::Method { get: _, set: false } => Err(no_setter_message()),
    }
}

impl Property {
    /// A field property holding the value.
    pub fn field(value: FieldValue) -> (r: Property)
        ensures
            r@ == PropertyModel::Field(value@),
    {
        Property::Field(value)
    }

    /// A property served by accessor methods: the value the getter returns,
    /// if there is a getter, and whether there is a setter.
    pub fn method(get: Option<Zval>, set: bool) -> (r: Property)
        ensures
            r@ == (PropertyModel::Method {
                get: match get {
                    Some(z) => Some(z@),
                    None => None,
                },
                set,
            }),
    {
        Property::Method { get, set }
    }

    /// Reads the property into `retval`; fails when there is no getter.
    pub fn get(&self, retval: &mut Zval) -> (r: Result<(), String>)
        ensures
            r is Ok <==> property_read(self@) is Ok,
            r is Ok ==> property_read(self@) == Ok::<ZvalModel, Seq<char>>(final(retval)@),
            r matches Err(m) ==> property_read(self@) == Err::<ZvalModel, Seq<char>>(m@),
    {
        match self {
            Property::Field(f) => {
                f.get(retval);
                Ok(())
            },
            Property::Method { get: Some(v), set: _ } => {
                *retval = v.duplicate();
                Ok(())
            },
            Property::Method { get: None, set: _ } => {
                let m = "No getter available for this property.";
                Err(m.to_string())
            },
        }
    }

    /// Writes the property from `value`: a field converts the value to its
    /// type, a method property needs a setter. On failure the property is
    /// left as it was.
    pub fn set(&mut self, value: &Zval) -> (r: Result<(), String>)
        ensures
            (match property_write(old(self)@, value@) {
                Ok(p) => r is Ok && final(self)@ == p,
                Err(m) => r matches Err(e) && e@ == m && final(self)@ == old(self)@,
            }),
    {
        match self {
            Property::Field(f) => match f.set(value) {
                Ok(()) => Ok(()),
                Err(_) => {
                    proof {
                        lemma_tag_type_unnamed(value@);
                    }
                    Err(field_write_failure(value.get_type()))
                },
            },
            Property::Method { get, set } => {
                if *set {
                    *get = Some(value.duplicate());
                    Ok(())
                } else {
                    let m = "No setter available for this property.";
                    Err(m.to_string())
                }
            },
        }
    }
}

/// Whether two field values are of the same type.
pub open spec fn same_field_type(f: FieldModel, g: FieldModel) -> bool {
    match (f, g) {
        (FieldModel::Long(_), FieldModel::Long(_)) => true,
        (FieldModel::Int(_), FieldModel::Int(_)) => true,
        (FieldModel::UInt(_), FieldModel::UInt(_)) => true,
        (FieldModel::Bool(_), FieldModel::Bool(_)) => true,
        (FieldModel::Str(_), FieldModel::Str(_)) => true,
        _ => false,
    }
}

/// Writing to a field the zval of a value of the field's own type stores
/// that value, and reading the property back gives that zval.
pub proof fn law_field_read_after_write(f: FieldModel, g: FieldModel)
    requires
        same_field_type(f, g),
    ensures
        field_write(f, field_zval(g)) == Some(g),
        property_write(PropertyModel::Field(f), field_zval(g)) == Ok::<PropertyModel, Seq<char>>(
            PropertyModel::Field(g),
        ),
        property_read(PropertyModel::Field(g)) == Ok::<ZvalModel, Seq<char>>(field_zval(g)),
{
    crate::flags::lemma_tag_types();
    match g {
        FieldModel::Str(t) => {
            crate::zval::law_text_after_set(t);
        },
        _ => {},
    }
}

/// A Rust value described by its declared properties, in order.
#[derive(Debug)]
pub struct ClassProperties {
    pub props: Vec<(String, Property)>,
}

/// The position of the first property of the name.
pub open spec fn find_property(ps: Seq<(Seq<char>, PropertyModel)>, name: Seq<char>) -> Option<int>
    decreases ps.len(),
{
    if ps.len() == 0 {
        None
    } else if ps[0].0 == name {
        Some(0)
    } else {
        match find_property(ps.drop_first(), name) {
            Some(i) => Some(i + 1),
            None => None,
        }
    }
}

/// A property of the name sits first at `i`.
proof fn lemma_find_at(ps: Seq<(Seq<char>, PropertyModel)>, name: Seq<char>, i: int)
    requires
        0 <= i < ps.len(),
        ps[i].0 == name,
        forall|j: int| 0 <= j < i ==> #[trigger] ps[j].0 != name,
    ensures
        find_property(ps, name) == Some(i),
    decreases i,
{
    if i > 0 {
        let t = ps.drop_first();
        assert forall|j: int| 0 <= j < i - 1 implies #[trigger] t[j].0 != name by {
            assert(t[j] == ps[j + 1]);
        }
        lemma_find_at(t, name, i - 1);
    }
}

/// No property has the name.
proof fn lemma_find_none(ps: Seq<(Seq<char>, PropertyModel)>, name: Seq<char>)
    requires
        forall|j: int| 0 <= j < ps.len() ==> #[trigger] ps[j].0 != name,
    ensures
        find_property(ps, name) is None,
    decreases ps.len(),
{
    if ps.len() > 0 {
        let t = ps.drop_first();
        assert forall|j: int| 0 <= j < t.len() implies #[trigger] t[j].0 != name by {
            assert(t[j] == ps[j + 1]);
        }
        lemma_find_none(t, name);
    }
}

impl ClassProperties {
    /// The declared properties, by name and model.
    pub closed spec fn model(&self) -> Seq<(Seq<char>, PropertyModel)> {
        self.props@.map_values(|p: (String, Property)| (p.0@, p.1@))
    }

    /// Finds the first property of the name.
    fn position(&self, name: &str) -> (r: Option<usize>)
        ensures
            r is Some <==> find_property(self.model(), name@) is Some,
            r matches Some(i) ==> find_property(self.model(), name@) == Some(i as int) && i
                < self.props@.len(),
    {
        let ghost m = self.model();
        let mut i: usize = 0;
        while i < self.props.len()
            invariant
                i <= self.props@.len(),
                m == self.model(),
                forall|j: int| 0 <= j < i ==> #[trigger] m[j].0 != name@,
            decreases self.props@.len() - i,
        {
            if bytes_eq(self.props[i].0.as_str().as_bytes(), name.as_bytes()) {
                proof {
                    encode_utf8_decode_utf8(m[i as int].0);
                    encode_utf8_decode_utf8(name@);
                    lemma_find_at(m, name@, i as int);
                }
                return Some(i);
            }
            proof {
                if m[i as int].0 == name@ {
                    assert(false);
                }
            }
            i = i + 1;
        }
        proof {
            lemma_find_none(m, name@);
        }
        None
    }
}

impl RegisteredClass for ClassProperties {
    open spec fn declared(&self, name: Seq<char>) -> bool {
        find_property(self.model(), name) is Some
    }

    open spec fn read_result(&self, name: Seq<char>) -> Result<ZvalModel, Seq<char>> {
        match find_property(self.model(), name) {
            Some(i) => property_read(self.model()[i].1),
            None => Err(no_getter_message()),
        }
    }

    open spec fn write_error(&self, name: Seq<char>, value: ZvalModel) -> Option<Seq<char>> {
        match find_property(self.model(), name) {
            Some(i) => match property_write(self.model()[i].1, value) {
                Ok(_) => None,
                Err(m) => Some(m),
            },
            None => Some(no_setter_message()),
        }
    }

    open spec fn declared_names(&self) -> Seq<Seq<char>> {
        self.model().map_values(|p: (Seq<char>, PropertyModel)| p.0)
    }

    fn is_declared(&self, name: &str) -> (r: bool) {
        self.position(name).is_some()
    }

    fn property_names(&self) -> (r: Vec<String>) {
        let ghost m = self.model();
        let mut v: Vec<String> = Vec::new();
        let mut i: usize = 0;
        while i < self.props.len()
            invariant
                i <= self.props@.len(),
                m == self.model(),
                v@.len() == i,
                forall|j: int| 0 <= j < i ==> (#[trigger] v@[j])@ == m[j].0,
            decreases self.props@.len() - i,
        {
            v.push(self.props[i].0.clone());
            i = i + 1;
        }
        proof {
            assert(v@.map_values(|s: String| s@) =~= m.map_values(|p: (Seq<char>, PropertyModel)| p.0));
            assert forall|j: int| 0 <= j < v@.len() implies self.declared(#[trigger] v@[j]@) by {
                lemma_first_of(m, j);
            }
        }
        v
    }

    fn get_prop(&self, name: &str, rv: &mut Zval) -> (r: Result<(), String>) {
        match self.position(name) {
            Some(i) => self.props[i].1.get(rv),
            None => {
                let m = "No getter available for this property.";
                Err(m.to_string())
            },
        }
    }

    fn set_prop(&mut self, name: &str, value: &Zval) -> (r: Result<(), String>)
        ensures
            (match find_property(old(self).model(), name@) {
                Some(i) => match property_write(old(self).model()[i].1, value@) {
                    Ok(p) => final(self).model() == old(self).model().update(
                        i,
                        (old(self).model()[i].0, p),
                    ),
                    Err(_) => final(self).model() == old(self).model(),
                },
                None => final(self).model() == old(self).model(),
            }),
    {
        match self.position(name) {
            Some(i) => {
                let ghost before = self.model();
                let mut entry = self.props.remove(i);
                let r = entry.1.set(value);
                self.props.insert(i, entry);
                proof {
                    assert(self.model() =~= (match property_write(before[i as int].1, value@) {
                        Ok(p) => before.update(i as int, (before[i as int].0, p)),
                        Err(_) => before,
                    }));
                    assert(self.model().map_values(|p: (Seq<char>, PropertyModel)| p.0) =~= before.map_values(
                        |p: (Seq<char>, PropertyModel)| p.0,
                    ));
                }
                r
            },
            None => {
                let m = "No setter available for this property.";
                Err(m.to_string())
            },
        }
    }
}

/// A name held at some position is found, at that position or before.
proof fn lemma_first_of(ps: Seq<(Seq<char>, PropertyModel)>, j: int)
    requires
        0 <= j < ps.len(),
    ensures
        find_property(ps, ps[j].0) is Some,
    decreases j,
{
    if j > 0 && ps[0].0 != ps[j].0 {
        let t = ps.drop_first();
        assert(t[j - 1] == ps[j]);
        lemma_first_of(t, j - 1);
    }
}

} // verus!
