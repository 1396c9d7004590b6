//! Objects of the Zend engine.

use vstd::prelude::*;
use vstd::string::*;

use crate::array::{array_model, lookup, model_insert, ArrayModel, HashKey, ZendHashTable};
use crate::class::{class_model, spec_instance_of, ClassEntry, ClassModel};
use crate::convert::{FromZval, IntoZval};
use crate::error::Error;
use crate::string::has_nul;
use crate::zval::{model_array, model_double_bits, model_long, model_str, model_type, double_nonzero, text_truthy, Zval, ZvalModel};
use crate::flags::DataType;

verus! {

/// An object of the engine.
#[derive(Debug)]
pub struct ZendObject {
    /// The handle of the object in the engine's object store.
    pub handle: u32,
    /// The class of the object.
    pub ce: ClassEntry,
    /// The property table of the object.
    pub properties: ZendHashTable,
    /// The reference count of the object.
    pub refcount: u32,
}

/// Abstract object.
pub struct ObjectModel {
    pub handle: u32,
    pub class: ClassModel,
    pub properties: ArrayModel,
    pub refcount: u32,
}

/// The abstract object of an object.
pub open spec fn object_model(o: &ZendObject) -> ObjectModel
    decreases o,
{
    ObjectModel {
        handle: o.handle,
        class: class_model(&o.ce),
        properties: array_model(&o.properties),
        refcount: o.refcount,
    }
}

impl View for ZendObject {
    type V = ObjectModel;

    open spec fn view(&self) -> ObjectModel {
        object_model(self)
    }
}

/// How a property's presence is checked.
#[derive(Clone, Copy, PartialEq, Eq, Structural, Debug)]
pub enum PropertyQuery {
    /// The property exists and is not null.
    Isset,
    /// The property exists and is not empty.
    NotEmpty,
    /// The property exists.
    Exists,
}

/// Whether the object's class implements `Traversable`.
pub open spec fn model_is_traversable(o: ObjectModel) -> bool {
    spec_instance_of(o.class, ClassEntry::traversable_model())
}

/// Whether a value is considered true by PHP.
pub open spec fn model_truthy(z: ZvalModel) -> bool {
    match model_type(z) {
        DataType::True => true,
        DataType::Long => model_long(z) != Some(0i64),
        DataType::Double => match model_double_bits(z) {
            Some(b) => double_nonzero(b),
            None => false,
        },
        DataType::String => match model_str(z) {
            Some(s) => text_truthy(s),
            None => false,
        },
        DataType::Array => match model_array(z) {
            Some(a) => a.entries.len() != 0,
            None => false,
        },
        DataType::Object(_) => true,
        DataType::Resource => true,
        _ => false,
    }
}

/// Whether the property answers the query.
pub open spec fn model_has_property(o: ObjectModel, name: Seq<u8>, query: PropertyQuery) -> bool {
    match lookup(o.properties.entries, HashKey::Name(name)) {
        None => false,
        Some(v) => match query {
            PropertyQuery::Exists => true,
            PropertyQuery::Isset => model_type(v) != DataType::Null,
            PropertyQuery::NotEmpty => model_truthy(v),
        },
    }
}

/// The lower-case hex digit of a value below 16.
pub open spec fn hex_digit(d: u32) -> char {
    if d < 10 {
        (d + 48) as char
    } else {
        (d + 87) as char
    }
}

/// The sixteen lower-case hex digits of a handle.
pub open spec fn hex16(v: u32) -> Seq<char> {
    Seq::new(16, |i: int| hex_digit(((v as int / vstd::arithmetic::power::pow(16, (15 - i) as nat)) % 16) as u32))
}

/// The `k`-th hex digit of a value, counting from the least significant.
pub open spec fn hex_digit_at(v: u32, k: nat) -> u32 {
    ((v as int / vstd::arithmetic::power::pow(16, k)) % 16) as u32
}

/// Hex digits below 16 print differently.
proof fn lemma_hex_digit_injective(a: u32, b: u32)
    requires
        a < 16,
        b < 16,
        hex_digit(a) == hex_digit(b),
    ensures
        a == b,
{
    let ca = hex_digit(a);
    let cb = hex_digit(b);
    assert(ca as u32 == (if a < 10 { a + 48 } else { a + 87 }));
    assert(cb as u32 == (if b < 10 { b + 48 } else { b + 87 }));
}

/// The value left once the `k` lowest hex digits are dropped.
spec fn hex_rest(v: u32, k: nat) -> int {
    v as int / vstd::arithmetic::power::pow(16, k)
}

/// Dropping one more digit divides what is left by 16; what is left is 16
/// times the next rest plus the digit.
proof fn lemma_hex_rest_step(v: u32, k: nat)
    ensures
        hex_rest(v, k) == 16 * hex_rest(v, k + 1) + hex_digit_at(v, k),
        hex_rest(v, k) >= 0,
{
    let p = vstd::arithmetic::power::pow(16, k);
    vstd::arithmetic::power::lemma_pow_positive(16, k);
    assert(vstd::arithmetic::power::pow(16, k + 1) == 16 * p) by {
        reveal(vstd::arithmetic::power::pow);
    }
    vstd::arithmetic::div_mod::lemma_div_denominator(v as int, p, 16);
    assert(p * 16 == 16 * p) by (nonlinear_arith);
    let q = v as int / p;
    assert(q >= 0) by (nonlinear_arith)
        requires
            v >= 0,
            p > 0,
            q == v as int / p,
    ;
    vstd::arithmetic::div_mod::lemma_fundamental_div_mod(q, 16);
}

/// Values that agree on their hex digits from position `k` up agree on what
/// is left once `k` digits are dropped.
proof fn lemma_hex_rest_equal(a: u32, b: u32, k: nat)
    requires
        k <= 8,
        forall|j: nat| k <= j < 8 ==> #[trigger] hex_digit_at(a, j) == hex_digit_at(b, j),
    ensures
        hex_rest(a, k) == hex_rest(b, k),
    decreases 8 - k,
{
    if k == 8 {
        assert(vstd::arithmetic::power::pow(16, 8) == 4294967296) by {
            reveal_with_fuel(vstd::arithmetic::power::pow, 9);
        }
    } else {
        lemma_hex_rest_equal(a, b, k + 1);
        lemma_hex_rest_step(a, k);
        lemma_hex_rest_step(b, k);
    }
}

/// Different handles hash differently.
pub proof fn law_hash_unique(a: u32, b: u32)
    requires
        a != b,
    ensures
        hex16(a) + Seq::new(16, |i: int| '0') != hex16(b) + Seq::new(16, |i: int| '0'),
{
    if hex16(a) + Seq::new(16, |i: int| '0') == hex16(b) + Seq::new(16, |i: int| '0') {
        assert forall|j: nat| 0 <= j < 8 implies #[trigger] hex_digit_at(a, j) == hex_digit_at(b, j) by {
            let i = 15 - j;
            assert((hex16(a) + Seq::new(16, |i: int| '0'))[i] == hex16(a)[i]);
            assert((hex16(b) + Seq::new(16, |i: int| '0'))[i] == hex16(b)[i]);
            assert((15 - i) as nat == j);
            lemma_hex_digit_injective(hex_digit_at(a, j), hex_digit_at(b, j));
        }
        lemma_hex_rest_equal(a, b, 0);
        vstd::arithmetic::power::lemma_pow0(16);
    }
}

/// Once eight hex digits are dropped from a handle, nothing is left, from
/// there on up.
proof fn lemma_hex_rest_high(v: u32, k: nat)
    requires
        8 <= k,
    ensures
        hex_rest(v, k) == 0,
        hex_digit_at(v, k) == 0,
    decreases k,
{
    if k == 8 {
        assert(vstd::arithmetic::power::pow(16, 8) == 4294967296) by {
            reveal_with_fuel(vstd::arithmetic::power::pow, 9);
        }
        vstd::arithmetic::div_mod::lemma_basic_div(v as int, 4294967296);
    } else {
        lemma_hex_rest_high(v, (k - 1) as nat);
        lemma_hex_rest_step(v, (k - 1) as nat);
        lemma_hex_rest_step(v, k);
    }
}

/// The text of a hex digit.
fn hex_digit_text(d: u32) -> (r: &'static str)
    requires
        d < 16,
    ensures
        r@ == seq![hex_digit(d)],
{
    proof {
        reveal_strlit("0");
        reveal_strlit("1");
        reveal_strlit("2");
        reveal_strlit("3");
        reveal_strlit("4");
        reveal_strlit("5");
        reveal_strlit("6");
        reveal_strlit("7");
        reveal_strlit("8");
        reveal_strlit("9");
        reveal_strlit("a");
        reveal_strlit("b");
        reveal_strlit("c");
        reveal_strlit("d");
        reveal_strlit("e");
        reveal_strlit("f");
    }
    match d {
        0 => "0",
        1 => "1",
        2 => "2",
        3 => "3",
        4 => "4",
        5 => "5",
        6 => "6",
        7 => "7",
        8 => "8",
        9 => "9",
        10 => "a",
        11 => "b",
        12 => "c",
        13 => "d",
        14 => "e",
        _ => "f",
    }
}

/// Formats an object handle the way `spl_object_hash` does: sixteen
/// lower-case hex digits, most significant first, then sixteen zeros.
fn handle_hash(handle: u32) -> (r: String)
    ensures
        r@ == hex16(handle) + Seq::new(16, |i: int| '0'),
{
    proof {
        vstd::arithmetic::power::lemma_pow0(16);
        assert(hex_rest(handle, 0) == handle as int / 1);
    }
    let mut digits: Vec<u32> = Vec::new();
    let mut rest: u32 = handle;
    let mut k: usize = 0;
    while k < 8
        invariant
            k <= 8,
            digits@.len() == k,
            rest == hex_rest(handle, k as nat),
            forall|j: int| 0 <= j < k ==> #[trigger] digits@[j] == hex_digit_at(handle, j as nat),
        decreases 8 - k,
    {
        proof {
            lemma_hex_rest_step(handle, k as nat);
            vstd::arithmetic::div_mod::lemma_fundamental_div_mod_converse(
                rest as int,
                16,
                hex_rest(handle, (k + 1) as nat),
                hex_digit_at(handle, k as nat) as int,
            );
        }
        digits.push(rest % 16);
        rest = rest / 16;
        k = k + 1;
    }
    let zeros8 = "00000000";
    let zeros16 = "0000000000000000";
    proof {
        reveal_strlit("00000000");
        reveal_strlit("0000000000000000");
    }
    let mut s = zeros8.to_string();
    assert forall|i: int| 0 <= i < 8 implies s@[i] == #[trigger] hex16(handle)[i] by {
        lemma_hex_rest_high(handle, (15 - i) as nat);
    }
    assert(s@ =~= hex16(handle).subrange(0, 8));
    let mut i: usize = 0;
    while i < 8
        invariant
            i <= 8,
            digits@.len() == 8,
            forall|j: int| 0 <= j < 8 ==> #[trigger] digits@[j] == hex_digit_at(handle, j as nat),
            s@ == hex16(handle).subrange(0, 8 + i),
        decreases 8 - i,
    {
        let d = digits[7 - i];
        proof {
            lemma_hex_rest_step(handle, (7 - i) as nat);
        }
        s.append(hex_digit_text(d));
        assert(s@ =~= hex16(handle).subrange(0, 8 + i + 1));
        i = i + 1;
    }
    s.append(zeros16);
    assert(s@ =~= hex16(handle) + Seq::new(16, |i: int| '0'));
    s
}

impl ZendObject {
    /// Creates a new object of the given class, with the given handle in the
    /// engine's object store and an empty property table.
    pub fn new(ce: &ClassEntry, handle: u32) -> (r: ZendObject)
        ensures
            r@.handle == handle,
            r@.class == ce@,
            r@.properties == crate::array::empty_model(),
            r@.refcount == 1,
    {
        ZendObject { handle, ce: ce.duplicate(), properties: ZendHashTable::new(), refcount: 1 }
    }

    /// Creates a new `stdClass` object.
    pub fn new_stdclass(handle: u32) -> (r: ZendObject)
        ensures
            r@.handle == handle,
            r@.class == ClassEntry::std_class_model(),
            r@.properties == crate::array::empty_model(),
            r@.refcount == 1,
    {
        ZendObject::new(&ClassEntry::std_class(), handle)
    }

    /// Makes an identical copy of the object.
    pub fn duplicate(&self) -> (r: ZendObject)
        ensures
            r@ == self@,
        decreases self,
    {
        ZendObject {
            handle: self.handle,
            ce: self.ce.duplicate(),
            properties: self.properties.duplicate(),
            refcount: self.refcount,
        }
    }

    /// Returns the class of the object.
    pub fn get_class_entry(&self) -> (r: &ClassEntry)
        ensures
            r@ == self@.class,
    {
        &self.ce
    }

    /// Returns the name of the class of the object.
    pub fn get_class_name(&self) -> (r: Result<String, Error>)
        ensures
            r matches Ok(s) && s@ == self@.class.name,
    {
        Ok(self.ce.name().to_owned())
    }

    /// Checks if the object is an instance of the given class.
    pub fn instance_of(&self, ce: &ClassEntry) -> (r: bool)
        ensures
            r == spec_instance_of(self@.class, ce@),
    {
        self.ce.instance_of(ce)
    }

    /// Checks if the object is exactly of the given class, the class a
    /// registered Rust type is bound to.
    pub fn is_instance(&self, ce: &ClassEntry) -> (r: bool)
        ensures
            r == (self@.class.id == ce@.id),
    {
        self.ce.same_class(ce)
    }

    /// Checks if the object's class implements `Traversable`.
    pub fn is_traversable(&self) -> (r: bool)
        ensures
            r == model_is_traversable(self@),
    {
        self.instance_of(&ClassEntry::traversable())
    }

    /// Checks whether the object has the property, in the sense of the query.
    pub fn has_property(&self, name: &str, query: PropertyQuery) -> (r: Result<bool, Error>)
        ensures
            r == Ok::<bool, Error>(model_has_property(self@, name.spec_bytes(), query)),
    {
        match self.properties.get(name) {
            None => Ok(false),
            Some(v) => match query {
                PropertyQuery::Exists => Ok(true),
                PropertyQuery::Isset => Ok(!v.is_null()),
                PropertyQuery::NotEmpty => Ok(zval_truthy(v)),
            },
        }
    }

    /// Reads a property and converts it to `T`. Fails with
    /// [`Error::InvalidProperty`] if there is no such property, or with
    /// [`Error::ZvalConversion`] if it does not convert.
    pub fn get_property<T: FromZval>(&self, name: &str) -> (r: Result<T, Error>)
        ensures
            ({
                let p = lookup(self@.properties.entries, HashKey::Name(name.spec_bytes()));
                &&& p is None ==> r == Err::<T, Error>(Error::InvalidProperty)
                &&& p is Some && T::accepts(p.unwrap()) ==> (r matches Ok(v) && T::read_as(p.unwrap(), v))
                &&& p is Some && !T::accepts(p.unwrap()) ==> r == Err::<T, Error>(Error::ZvalConversion(model_type(p.unwrap())))
            }),
    {
        match self.properties.get(name) {
            None => Err(Error::InvalidProperty),
            Some(zv) => match T::from_zval(zv) {
                Some(v) => Ok(v),
                None => Err(Error::ZvalConversion(zv.get_type())),
            },
        }
    }

    /// Writes a property. Fails if the name holds a NUL byte or the value
    /// does not convert into a zval.
    pub fn set_property<V: IntoZval>(&mut self, name: &str, value: V) -> (r: Result<(), Error>)
        ensures
            r is Ok <==> (value.zval_of(false) is Some && !has_nul(name.spec_bytes())),
            r is Ok ==> final(self)@ == (ObjectModel {
                properties: model_insert(old(self)@.properties, HashKey::Name(name.spec_bytes()), value.zval_of(false).unwrap()),
                ..old(self)@
            }),
            r is Err ==> final(self)@ == old(self)@,
    {
        self.properties.insert(name, value)
    }

    /// Returns the property table of the object.
    pub fn get_properties(&self) -> (r: Result<&ZendHashTable, Error>)
        ensures
            r matches Ok(h) && h@ == self@.properties,
    {
        Ok(&self.properties)
    }

    /// Returns the handle of the object.
    pub fn get_id(&self) -> (r: u32)
        ensures
            r == self@.handle,
    {
        self.handle
    }

    /// Returns the object's hash, as `spl_object_hash` computes it.
    pub fn hash(&self) -> (r: String)
        ensures
            r@ == hex16(self@.handle) + Seq::new(16, |i: int| '0'),
    {
        handle_hash(self.handle)
    }

    /// Returns the reference count.
    pub fn get_count(&self) -> (r: u32)
        ensures
            r == self@.refcount,
    {
        self.refcount
    }

    /// Increments the reference count.
    pub fn inc_count(&mut self)
        requires
            old(self)@.refcount < u32::MAX,
        ensures
            final(self)@ == (ObjectModel { refcount: (old(self)@.refcount + 1) as u32, ..old(self)@ }),
    {
        self.refcount = self.refcount + 1;
    }

    /// Decrements the reference count.
    pub fn dec_count(&mut self)
        requires
            old(self)@.refcount > 0,
        ensures
            final(self)@ == (ObjectModel { refcount: (old(self)@.refcount - 1) as u32, ..old(self)@ }),
    {
        self.refcount = self.refcount - 1;
    }
}

/// Whether PHP considers the value true.
pub fn zval_truthy(v: &Zval) -> (r: bool)
    ensures
        r == model_truthy(v@),
{
    match v.get_type() {
        DataType::True => true,
        DataType::Long => v.long() != Some(0i64),
        DataType::Double => match v.double_bits() {
            Some(b) => b & 0x7fff_ffff_ffff_ffff != 0,
            None => false,
        },
        DataType::String => match v.zend_str() {
            Some(s) => {
                let b = s.as_bytes();
                !(b.len() == 0 || (b.len() == 1 && b[0] == 48))
            },
            None => false,
        },
        DataType::Array => match v.array() {
            Some(a) => a.len() != 0,
            None => false,
        },
        DataType::Object(_) => true,
        DataType::Resource => true,
        _ => false,
    }
}

} // verus!
