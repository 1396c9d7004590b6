//! Objects of classes bound to Rust types, and the handlers through which
//! the engine reads, writes and checks their properties: a property the
//! Rust type declares is served by the Rust value, any other by the
//! object's own property table.

use vstd::prelude::*;
use vstd::string::*;
use vstd::utf8::*;

use crate::array::{lookup, model_insert, ArrayModel, HashKey, ZendHashTable};
use crate::class::ClassEntry;
use crate::exceptions::{throw, thrown_object, throwable_class};
use crate::globals::{tables_kept, ExecutorGlobals, ExecutorModel};
use crate::object::{model_has_property, model_truthy, zval_truthy, ObjectModel, PropertyQuery, ZendObject};
use crate::string::{contains_nul, has_nul, ZendStr};
use crate::zval::{model_type, null_model, Zval, ZvalModel};
use crate::flags::DataType;

verus! {

/// A Rust type bound to a PHP class, and the properties it declares. The
/// implementation comes with the type, usually generated from its
/// attributes; what a getter returns is up to the type.
pub trait RegisteredClass: Sized {
    /// Whether the type declares a property of this name.
    spec fn declared(&self, name: Seq<char>) -> bool;

    /// What reading a declared property of the value gives: the value, or
    /// the message of the failure.
    spec fn read_result(&self, name: Seq<char>) -> Result<ZvalModel, Seq<char>>;

    /// Checks whether the type declares a property of this name.
    fn is_declared(&self, name: &str) -> (r: bool)
        ensures
            r == self.declared(name@),
    ;

    /// The names of the declared properties, in the order they are listed.
    spec fn declared_names(&self) -> Seq<Seq<char>>;

    /// The names of the declared properties, in the order they are listed.
    fn property_names(&self) -> (r: Vec<String>)
        ensures
            r@.map_values(|s: String| s@) == self.declared_names(),
            forall|i: int| 0 <= i < r@.len() ==> self.declared(#[trigger] r@[i]@),
    ;

    /// Reads a declared property into `rv`.
    fn get_prop(&self, name: &str, rv: &mut Zval) -> (r: Result<(), String>)
        requires
            self.declared(name@),
        ensures
            r is Ok <==> self.read_result(name@) is Ok,
            r is Ok ==> self.read_result(name@) == Ok::<ZvalModel, Seq<char>>(final(rv)@),
            r matches Err(m) ==> self.read_result(name@) == Err::<ZvalModel, Seq<char>>(m@),
    ;

    /// The message of the failure of writing the value to a declared
    /// property, if writing it fails.
    spec fn write_error(&self, name: Seq<char>, value: ZvalModel) -> Option<Seq<char>>;

    /// Writes a declared property from `value`.
    fn set_prop(&mut self, name: &str, value: &Zval) -> (r: Result<(), String>)
        requires
            old(self).declared(name@),
        ensures
            r is Err <==> old(self).write_error(name@, value@) is Some,
            r matches Err(m) ==> old(self).write_error(name@, value@) == Some(m@),
            final(self).declared_names() == old(self).declared_names(),
    ;
}

/// An object of a class bound to a Rust type: the Rust value, and the
/// engine's part of the object.
pub struct ZendClassObject<T: RegisteredClass> {
    pub obj: T,
    pub std: ZendObject,
}

impl<T: RegisteredClass> ZendClassObject<T> {
    /// Creates an object of the class, holding the Rust value, with the
    /// given handle and an empty property table.
    pub fn new(obj: T, ce: &ClassEntry, handle: u32) -> (r: ZendClassObject<T>)
        ensures
            r.obj == obj,
            r.std@ == (ObjectModel {
                handle,
                class: ce@,
                properties: crate::array::empty_model(),
                refcount: 1,
            }),
    {
        ZendClassObject { obj, std: ZendObject::new(ce, handle) }
    }

    /// Borrows the engine's part of the object mutably.
    pub fn get_mut_zend_obj(&mut self) -> (r: &mut ZendObject)
        ensures
            *r == old(self).std,
            final(self).std == *final(r),
            final(self).obj == old(self).obj,
    {
        &mut self.std
    }
}

/// The executor after an exception of class `Exception` with the message
/// and code 0 is thrown; unchanged when the message cannot be handed to C.
pub open spec fn after_throw(eg: ExecutorModel, message: Seq<u8>) -> ExecutorModel {
    if has_nul(message) {
        eg
    } else {
        ExecutorModel {
            exception: Some(
                thrown_object(ClassEntry::exception_model(), 0, message, eg.next_handle, eg.exception),
            ),
            next_handle: (eg.next_handle + 1) as u32,
        }
    }
}

/// Throws an exception of class `Exception` with the message, as a failed
/// handler reports its error; a message that cannot be handed to C throws
/// nothing.
fn throw_message(eg: &mut ExecutorGlobals, message: &str)
    requires
        old(eg)@.next_handle < u32::MAX,
    ensures
        final(eg)@ == after_throw(old(eg)@, message.spec_bytes()),
        tables_kept(*final(eg), *old(eg)),
{
    let ce = ClassEntry::exception();
    proof {
        lemma_exception_throwable();
    }
    let _ = throw(eg, &ce, message);
}

/// `Exception` can be thrown.
proof fn lemma_exception_throwable()
    ensures
        throwable_class(ClassEntry::exception_model()),
{
    assert((1572872u32 & 16678911u32) & 1u32 != 1u32 && (1572872u32 & 16678911u32) & 64u32 != 64u32)
        by (bit_vector);
}

/// The message reported for a property name that is not UTF-8.
pub open spec fn invalid_name_message() -> Seq<u8> {
    "Invalid property name given".spec_bytes()
}

/// The message reported for a check mode other than 0, 1 and 2.
pub open spec fn invalid_mode_message() -> Seq<u8> {
    "Invalid value given for `has_set_exists` in struct `has_property` function.".spec_bytes()
}

/// The message reported when a property cannot be stored in the table.
pub open spec fn insert_failed_message() -> Seq<u8> {
    "Failed to insert value into properties hashtable: InvalidCString".spec_bytes()
}

/// The object table's value of the property, or null.
pub open spec fn std_read(o: ObjectModel, name: Seq<u8>) -> ZvalModel {
    match lookup(o.properties.entries, HashKey::Name(name)) {
        Some(v) => v,
        None => null_model(),
    }
}

/// The property table once the declared properties that read successfully
/// are stored in it, in order, and whether storing one failed, which stops
/// the merge.
pub open spec fn merge_declared<T: RegisteredClass>(
    o: &T,
    m: ArrayModel,
    names: Seq<Seq<char>>,
) -> (ArrayModel, bool)
    decreases names.len(),
{
    if names.len() == 0 {
        (m, false)
    } else {
        let n = names[0];
        match o.read_result(n) {
            Err(_) => merge_declared(o, m, names.drop_first()),
            Ok(v) => if has_nul(encode_utf8(n)) {
                (m, true)
            } else {
                merge_declared(o, model_insert(m, HashKey::Name(encode_utf8(n)), v), names.drop_first())
            },
        }
    }
}

/// The query of a check mode: 0 asks whether the property is set and not
/// null, 1 whether it is set and true, 2 whether it exists.
pub open spec fn mode_query(mode: i32) -> PropertyQuery {
    if mode == 0 {
        PropertyQuery::Isset
    } else if mode == 1 {
        PropertyQuery::NotEmpty
    } else {
        PropertyQuery::Exists
    }
}

/// The answer of a property check, without the exceptions it throws.
pub open spec fn has_property_result<T: RegisteredClass>(
    o: &T,
    std: ObjectModel,
    name: Seq<u8>,
    mode: i32,
) -> bool {
    let n = decode_utf8(name);
    if !valid_utf8(name) || mode < 0 || mode > 2 {
        false
    } else if o.declared(n) && mode == 2 {
        true
    } else if o.declared(n) && o.read_result(n) is Err {
        false
    } else if o.declared(n) && mode == 0 && model_type(o.read_result(n)->Ok_0) != DataType::Null {
        true
    } else if o.declared(n) && mode == 1 && model_truthy(o.read_result(n)->Ok_0) {
        true
    } else {
        model_has_property(std, name, mode_query(mode))
    }
}

/// The exception a property check throws, if any: for a name that is not
/// UTF-8, for an invalid mode, or when the getter of a declared property
/// fails in modes 0 and 1.
pub open spec fn has_property_error<T: RegisteredClass>(o: &T, name: Seq<u8>, mode: i32) -> Option<Seq<u8>> {
    let n = decode_utf8(name);
    if !valid_utf8(name) {
        Some(invalid_name_message())
    } else if mode < 0 || mode > 2 {
        Some(invalid_mode_message())
    } else if o.declared(n) && mode != 2 && o.read_result(n) is Err {
        Some(encode_utf8(o.read_result(n)->Err_0))
    } else {
        None
    }
}

/// The handlers the engine calls on objects of classes bound to Rust types.
pub struct ZendObjectHandlers;

impl ZendObjectHandlers {
    /// Reads a property: a declared property through the Rust value's
    /// getter, any other from the object's table (null when absent). A name
    /// that is not UTF-8 or a failing getter throws an exception and reads
    /// as null.
    pub fn read_property<T: RegisteredClass>(
        eg: &mut ExecutorGlobals,
        obj: &ZendClassObject<T>,
        member: &ZendStr,
    ) -> (r: Zval)
        requires
            old(eg)@.next_handle < u32::MAX,
        ensures
            tables_kept(*final(eg), *old(eg)),
            ({
                let n = decode_utf8(member@);
                if !valid_utf8(member@) {
                    r@ == null_model() && final(eg)@ == after_throw(old(eg)@, invalid_name_message())
                } else if obj.obj.declared(n) {
                    match obj.obj.read_result(n) {
                        Ok(v) => r@ == v && final(eg)@ == old(eg)@,
                        Err(m) => r@ == null_model() && final(eg)@ == after_throw(
                            old(eg)@,
                            encode_utf8(m),
                        ),
                    }
                } else {
                    r@ == std_read(obj.std@, member@) && final(eg)@ == old(eg)@
                }
            }),
    {
        let name = match member.as_str() {
            Ok(n) => n,
            Err(_) => {
                throw_message(eg, "Invalid property name given");
                return Zval::new();
            },
        };
        proof {
            vstd::utf8::encode_utf8_decode_utf8(name@);
        }
        if obj.obj.is_declared(name) {
            let mut rv = Zval::new();
            match obj.obj.get_prop(name, &mut rv) {
                Ok(()) => rv,
                Err(m) => {
                    throw_message(eg, m.as_str());
                    Zval::new()
                },
            }
        } else {
            match obj.std.properties.get(name) {
                Some(v) => v.duplicate(),
                None => Zval::new(),
            }
        }
    }

    /// Writes a property: a declared property through the Rust value's
    /// setter, any other into the object's table. A name that is not UTF-8
    /// or a failing setter throws an exception.
    pub fn write_property<T: RegisteredClass>(
        eg: &mut ExecutorGlobals,
        obj: &mut ZendClassObject<T>,
        member: &ZendStr,
        value: &Zval,
    )
        requires
            old(eg)@.next_handle < u32::MAX,
        ensures
            tables_kept(*final(eg), *old(eg)),
            ({
                let n = decode_utf8(member@);
                if !valid_utf8(member@) {
                    final(eg)@ == after_throw(old(eg)@, invalid_name_message()) && final(obj).std@
                        == old(obj).std@
                } else if old(obj).obj.declared(n) {
                    final(obj).std@ == old(obj).std@ && final(eg)@ == (match old(obj).obj.write_error(
                        n,
                        value@,
                    ) {
                        Some(m) => after_throw(old(eg)@, encode_utf8(m)),
                        None => old(eg)@,
                    })
                } else {
                    final(obj).std@ == (ObjectModel {
                        properties: model_insert(old(obj).std@.properties, HashKey::Name(member@), value@),
                        ..old(obj).std@
                    }) && final(eg)@ == old(eg)@
                }
            }),
    {
        let name = match member.as_str() {
            Ok(n) => n,
            Err(_) => {
                throw_message(eg, "Invalid property name given");
                return;
            },
        };
        proof {
            vstd::utf8::encode_utf8_decode_utf8(name@);
        }
        if obj.obj.is_declared(name) {
            match obj.obj.set_prop(name, value) {
                Ok(()) => {},
                Err(m) => {
                    throw_message(eg, m.as_str());
                },
            }
        } else {
            obj.std.properties.insert_zval(name, value.duplicate());
        }
    }

    /// Returns the object's property table after storing in it the declared
    /// properties whose getters succeed; a name that cannot be stored
    /// throws an exception and ends the merge.
    pub fn get_properties<'a, T: RegisteredClass>(
        eg: &mut ExecutorGlobals,
        obj: &'a mut ZendClassObject<T>,
    ) -> (r: &'a ZendHashTable)
        requires
            old(eg)@.next_handle < u32::MAX,
        ensures
            tables_kept(*final(eg), *old(eg)),
            ({
                let merged = merge_declared(&old(obj).obj, old(obj).std@.properties, old(obj).obj.declared_names());
                &&& r@ == merged.0
                &&& final(eg)@ == (if merged.1 {
                    after_throw(old(eg)@, insert_failed_message())
                } else {
                    old(eg)@
                })
            }),
            final(obj).std@ == (ObjectModel { properties: r@, ..old(obj).std@ }),
    {
        let names = obj.obj.property_names();
        let ghost all = names@.map_values(|s: String| s@);
        let ghost start = obj.std@.properties;
        let n = names.len();
        let mut i: usize = 0;
        let mut failed = false;
        assert(all.subrange(0, all.len() as int) =~= all);
        while i < n
            invariant
                i <= n,
                n == names@.len(),
                all == names@.map_values(|s: String| s@),
                forall|j: int| 0 <= j < names@.len() ==> obj.obj.declared(#[trigger] names@[j]@),
                !failed ==> merge_declared(&obj.obj, start, all) == merge_declared(
                    &obj.obj,
                    obj.std@.properties,
                    all.subrange(i as int, all.len() as int),
                ),
                failed ==> merge_declared(&obj.obj, start, all) == (obj.std@.properties, true),
                failed ==> i == n,
                obj.obj == old(obj).obj,
                start == old(obj).std@.properties,
                obj.std@ == (ObjectModel { properties: obj.std@.properties, ..old(obj).std@ }),
                eg@ == old(eg)@,
            decreases n - i,
        {
            let ghost rest = all.subrange(i as int, all.len() as int);
            assert(rest[0] == names@[i as int]@);
            assert(rest.drop_first() =~= all.subrange(i + 1, all.len() as int));
            let name = names[i].as_str();
            let mut zv = Zval::new();
            match obj.obj.get_prop(name, &mut zv) {
                Err(_) => {
                    i = i + 1;
                },
                Ok(()) => {
                    if contains_nul(name.as_bytes()) {
                        failed = true;
                        i = n;
                    } else {
                        obj.std.properties.insert_zval(name, zv);
                        i = i + 1;
                    }
                },
            }
        }
        if failed {
            throw_message(eg, "Failed to insert value into properties hashtable: InvalidCString");
        }
        proof {
            if !failed {
                assert(all.subrange(all.len() as int, all.len() as int) =~= Seq::<Seq<char>>::empty());
            }
        }
        &obj.std.properties
    }

    /// Checks a property in one of three modes: 0, whether it is set and not
    /// null; 1, whether it is set and true; 2, whether it exists. A declared
    /// property answers through the Rust value, and when it does not answer
    /// yes the object's table is asked. Returns 1 for yes and 0 for no.
    pub fn has_property<T: RegisteredClass>(
        eg: &mut ExecutorGlobals,
        obj: &ZendClassObject<T>,
        member: &ZendStr,
        has_set_exists: i32,
    ) -> (r: i32)
        requires
            old(eg)@.next_handle < u32::MAX,
        ensures
            tables_kept(*final(eg), *old(eg)),
            r == (if has_property_result(&obj.obj, obj.std@, member@, has_set_exists) {
                1i32
            } else {
                0i32
            }),
            final(eg)@ == (match has_property_error(&obj.obj, member@, has_set_exists) {
                Some(m) => after_throw(old(eg)@, m),
                None => old(eg)@,
            }),
    {
        let name = match member.as_str() {
            Ok(n) => n,
            Err(_) => {
                throw_message(eg, "Invalid property name given");
                return 0;
            },
        };
        proof {
            vstd::utf8::encode_utf8_decode_utf8(name@);
        }
        let declared = obj.obj.is_declared(name);
        if has_set_exists == 0 {
            if declared {
                let mut zv = Zval::new();
                match obj.obj.get_prop(name, &mut zv) {
                    Err(m) => {
                        throw_message(eg, m.as_str());
                        return 0;
                    },
                    Ok(()) => {
                        if !zv.is_null() {
                            return 1;
                        }
                    },
                }
            }
        } else if has_set_exists == 1 {
            if declared {
                let mut zv = Zval::new();
                match obj.obj.get_prop(name, &mut zv) {
                    Err(m) => {
                        throw_message(eg, m.as_str());
                        return 0;
                    },
                    Ok(()) => {
                        if zval_truthy(&zv) {
                            return 1;
                        }
                    },
                }
            }
        } else if has_set_exists == 2 {
            if declared {
                return 1;
            }
        } else {
            throw_message(
                eg,
                "Invalid value given for `has_set_exists` in struct `has_property` function.",
            );
            return 0;
        }
        let query = if has_set_exists == 0 {
            PropertyQuery::Isset
        } else if has_set_exists == 1 {
            PropertyQuery::NotEmpty
        } else {
            PropertyQuery::Exists
        };
        match obj.std.has_property(name, query) {
            Ok(true) => 1,
            _ => 0,
        }
    }
}

} // verus!
