//! Throwing PHP exceptions from Rust.

use vstd::prelude::*;
use vstd::string::*;

use crate::array::{empty_model, law_lookup_after_insert, law_lookup_other_after_insert, lookup, model_insert, HashKey};
use crate::class::{flags_interface, ClassEntry, ClassModel};
use crate::error::Error;
use crate::flags::{ClassFlags, CLASS_FLAGS_ALL, ZEND_ACC_ABSTRACT, ZEND_ACC_INTERFACE};
use crate::globals::{tables_kept, ExecutorGlobals, ExecutorModel};
use crate::object::{ObjectModel, ZendObject};
use crate::string::{contains_nul, has_nul};
use crate::zval::{long_model, object_zval_model, string_model, Zval};

verus! {

/// Whether the flags mark an abstract class.
pub open spec fn flags_abstract(flags: u32) -> bool {
    (flags & CLASS_FLAGS_ALL) & ZEND_ACC_ABSTRACT == ZEND_ACC_ABSTRACT
}

/// Whether objects of the class can be thrown: it is neither an interface
/// nor abstract.
pub open spec fn throwable_class(c: ClassModel) -> bool {
    !flags_interface(c.flags) && !flags_abstract(c.flags)
}

/// The exception object a throw creates: an object of the class with the
/// given handle, whose `message` property holds the message, whose `code`
/// property holds the code unless it is zero, and whose `previous`
/// property holds the exception that was pending, if any.
pub open spec fn thrown_object(
    ce: ClassModel,
    code: i32,
    message: Seq<u8>,
    handle: u32,
    previous: Option<ObjectModel>,
) -> ObjectModel {
    let with_message = model_insert(
        empty_model(),
        HashKey::Name("message".spec_bytes()),
        string_model(message),
    );
    let with_code = if code != 0 {
        model_insert(with_message, HashKey::Name("code".spec_bytes()), long_model(code as i64))
    } else {
        with_message
    };
    let with_previous = match previous {
        Some(p) => model_insert(
            with_code,
            HashKey::Name("previous".spec_bytes()),
            object_zval_model(p),
        ),
        None => with_code,
    };
    ObjectModel { handle, class: ce, properties: with_previous, refcount: 1 }
}

/// The property names a throw writes are distinct byte strings.
proof fn lemma_property_names_distinct()
    ensures
        "message".spec_bytes() != "code".spec_bytes(),
        "message".spec_bytes() != "previous".spec_bytes(),
        "code".spec_bytes() != "previous".spec_bytes(),
{
    reveal_strlit("message");
    reveal_strlit("code");
    reveal_strlit("previous");
    vstd::string::is_ascii_spec_bytes("message");
    vstd::string::is_ascii_spec_bytes("code");
    vstd::string::is_ascii_spec_bytes("previous");
    assert("message".spec_bytes().len() == 7);
    assert("code".spec_bytes().len() == 4);
    assert("previous".spec_bytes().len() == 8);
}

/// The exception a throw leaves pending is an object of the thrown class,
/// with the handle it was given and one reference, whose `message`
/// property reads as the message, whose `code` property reads as the code
/// when the code is not zero, and whose `previous` property holds the
/// exception that was pending before.
pub proof fn law_thrown_exception(
    ce: ClassModel,
    code: i32,
    message: Seq<u8>,
    handle: u32,
    previous: Option<ObjectModel>,
)
    ensures
        ({
            let o = thrown_object(ce, code, message, handle, previous);
            &&& o.class == ce
            &&& o.handle == handle
            &&& o.refcount == 1
            &&& lookup(o.properties.entries, HashKey::Name("message".spec_bytes())) == Some(
                string_model(message),
            )
            &&& code != 0 ==> lookup(o.properties.entries, HashKey::Name("code".spec_bytes()))
                == Some(long_model(code as i64))
            &&& code == 0 ==> lookup(o.properties.entries, HashKey::Name("code".spec_bytes())) is None
            &&& previous matches Some(p) ==> lookup(
                o.properties.entries,
                HashKey::Name("previous".spec_bytes()),
            ) == Some(object_zval_model(p))
        }),
{
    lemma_property_names_distinct();
    let km = HashKey::Name("message".spec_bytes());
    let kc = HashKey::Name("code".spec_bytes());
    let kp = HashKey::Name("previous".spec_bytes());
    let m1 = model_insert(empty_model(), km, string_model(message));
    law_lookup_after_insert(empty_model(), km, string_model(message));
    law_lookup_other_after_insert(empty_model(), km, kc, string_model(message));
    let m2 = if code != 0 {
        model_insert(m1, kc, long_model(code as i64))
    } else {
        m1
    };
    if code != 0 {
        law_lookup_after_insert(m1, kc, long_model(code as i64));
        law_lookup_other_after_insert(m1, kc, km, long_model(code as i64));
    }
    match previous {
        Some(p) => {
            law_lookup_after_insert(m2, kp, object_zval_model(p));
            law_lookup_other_after_insert(m2, kp, km, object_zval_model(p));
            law_lookup_other_after_insert(m2, kp, kc, object_zval_model(p));
        },
        None => {},
    }
}

/// The executor after an exception of the class with the code and the
/// message is thrown; unchanged when the message cannot be handed to C.
pub open spec fn after_throw_of(eg: ExecutorModel, ce: ClassModel, code: i32, message: Seq<u8>) -> ExecutorModel {
    if has_nul(message) {
        eg
    } else {
        ExecutorModel {
            exception: Some(thrown_object(ce, code, message, eg.next_handle, eg.exception)),
            next_handle: (eg.next_handle + 1) as u32,
        }
    }
}

/// The engine's built-in classes can be thrown.
pub(crate) proof fn lemma_builtin_class_throwable(c: ClassModel)
    requires
        c.flags == crate::class::BUILTIN_CLASS_FLAGS,
    ensures
        throwable_class(c),
{
    assert((1572872u32 & 16678911u32) & 1u32 != 1u32 && (1572872u32 & 16678911u32) & 64u32 != 64u32)
        by (bit_vector);
}

/// Throws an exception of the given class, with a message and a code 0.
/// See [`throw_with_code`].
pub fn throw(eg: &mut ExecutorGlobals, ex: &ClassEntry, message: &str) -> (r: Result<(), Error>)
    requires
        old(eg)@.next_handle < u32::MAX,
    ensures
        r is Err <==> (!throwable_class(ex@) || has_nul(message.spec_bytes())),
        r matches Err(e) ==> (if throwable_class(ex@) {
            e == Error::InvalidCString
        } else {
            e matches Error::InvalidException(f) && f@ == ex@.flags & CLASS_FLAGS_ALL
        }),
        r is Err ==> final(eg)@ == old(eg)@,
        r is Ok ==> final(eg)@.next_handle == old(eg)@.next_handle + 1 && final(eg)@.exception
            == Some(thrown_object(ex@, 0, message.spec_bytes(), old(eg)@.next_handle, old(eg)@.exception)),
        tables_kept(*final(eg), *old(eg)),
{
    throw_with_code(eg, ex, 0, message)
}

/// Throws an exception of the given class with a message and a code: the
/// exception becomes the pending exception of the executor, and the one
/// pending before, if any, becomes its `previous` exception. Fails with
/// [`Error::InvalidException`] when the class is an interface or abstract,
/// and with [`Error::InvalidCString`] when the message holds a NUL byte.
pub fn throw_with_code(eg: &mut ExecutorGlobals, ex: &ClassEntry, code: i32, message: &str) -> (r:
    Result<(), Error>)
    requires
        old(eg)@.next_handle < u32::MAX,
    ensures
        r is Err <==> (!throwable_class(ex@) || has_nul(message.spec_bytes())),
        r matches Err(e) ==> (if throwable_class(ex@) {
            e == Error::InvalidCString
        } else {
            e matches Error::InvalidException(f) && f@ == ex@.flags & CLASS_FLAGS_ALL
        }),
        r is Err ==> final(eg)@ == old(eg)@,
        r is Ok ==> final(eg)@.next_handle == old(eg)@.next_handle + 1 && final(eg)@.exception
            == Some(thrown_object(ex@, code, message.spec_bytes(), old(eg)@.next_handle, old(eg)@.exception)),
        tables_kept(*final(eg), *old(eg)),
{
    let flags = ex.flags();
    if flags.contains(ClassFlags::from_bits_retain(ZEND_ACC_INTERFACE)) || flags.contains(
        ClassFlags::from_bits_retain(ZEND_ACC_ABSTRACT),
    ) {
        return Err(Error::InvalidException(flags));
    }
    if contains_nul(message.as_bytes()) {
        return Err(Error::InvalidCString);
    }
    let handle = eg.next_handle;
    let mut obj = ZendObject::new(ex, handle);
    let mut msg = Zval::new();
    let _ = msg.set_string(message, false);
    obj.properties.insert_zval("message", msg);
    if code != 0 {
        let mut c = Zval::new();
        c.set_long(code as i64);
        obj.properties.insert_zval("code", c);
    }
    match eg.exception.take() {
        Some(prev) => {
            let z = Zval::from_object(prev);
            obj.properties.insert_zval("previous", z);
        },
        None => {},
    }
    eg.exception = Some(obj);
    eg.next_handle = handle + 1;
    Ok(())
}

/// An exception to be thrown into PHP: a message, a code and the class of
/// the exception.
#[derive(Debug)]
pub struct PhpException {
    message: String,
    code: i32,
    ex: ClassEntry,
}

/// Abstract exception.
pub struct PhpExceptionModel {
    pub message: Seq<char>,
    pub code: i32,
    pub ex: ClassModel,
}

impl View for PhpException {
    type V = PhpExceptionModel;

    closed spec fn view(&self) -> PhpExceptionModel {
        PhpExceptionModel { message: self.message@, code: self.code, ex: self.ex@ }
    }
}

impl PhpException {
    /// Creates a new exception with a message, a code and a class.
    pub fn new(message: String, code: i32, ex: &ClassEntry) -> (r: PhpException)
        ensures
            r@ == (PhpExceptionModel { message: message@, code, ex: ex@ }),
    {
        PhpException { message, code, ex: ex.duplicate() }
    }

    /// Creates a new exception of the class `Exception` with a message and
    /// code 0.
    pub fn default(message: String) -> (r: PhpException)
        ensures
            r@ == (PhpExceptionModel { message: message@, code: 0, ex: ClassEntry::exception_model() }),
    {
        PhpException::new(message, 0, &ClassEntry::exception())
    }

    /// Creates a new exception of the class a registered Rust type is bound
    /// to, with a message and code 0.
    pub fn from_class(message: String, ce: &ClassEntry) -> (r: PhpException)
        ensures
            r@ == (PhpExceptionModel { message: message@, code: 0, ex: ce@ }),
    {
        PhpException::new(message, 0, ce)
    }

    /// Throws the exception into the executor; see [`throw_with_code`].
    pub fn throw(self, eg: &mut ExecutorGlobals) -> (r: Result<(), Error>)
        requires
            old(eg)@.next_handle < u32::MAX,
        ensures
            r is Err <==> (!throwable_class(self@.ex) || has_nul(
                vstd::utf8::encode_utf8(self@.message),
            )),
            r is Err ==> final(eg)@ == old(eg)@,
            r is Ok ==> final(eg)@.next_handle == old(eg)@.next_handle + 1 && final(eg)@.exception
                == Some(
                thrown_object(
                    self@.ex,
                    self@.code,
                    vstd::utf8::encode_utf8(self@.message),
                    old(eg)@.next_handle,
                    old(eg)@.exception,
                ),
            ),
            tables_kept(*final(eg), *old(eg)),
    {
        throw_with_code(eg, &self.ex, self.code, self.message.as_str())
    }
}

} // verus!
