//! Strings of the Zend engine: byte strings that know their length, may hold
//! NUL bytes, and are reference counted.

use vstd::prelude::*;
use vstd::utf8::*;
use vstd::string::*;

use crate::error::Error;

verus! {

/// Reads bytes as UTF-8 text.
///
/// Trusted: calls `std::str::from_utf8`, which std documents to succeed
/// exactly when the bytes are valid UTF-8 and to return a `str` made of those
/// same bytes.
#[verifier::external_body]
pub(crate) fn utf8_str(bytes: &[u8]) -> (r: Option<&str>)
    ensures
        r is Some <==> valid_utf8(bytes@),
        r matches Some(s) ==> s.spec_bytes() == bytes@,
{
    std::str::from_utf8(bytes).ok()
}

/// Whether the bytes hold a NUL byte.
pub open spec fn has_nul(bytes: Seq<u8>) -> bool {
    exists|i: int| 0 <= i < bytes.len() && bytes[i] == 0
}

/// Looks for a NUL byte, which a C string cannot hold.
pub fn contains_nul(bytes: &[u8]) -> (r: bool)
    ensures
        r == has_nul(bytes@),
{
    let mut i: usize = 0;
    while i < bytes.len()
        invariant
            i <= bytes@.len(),
            forall|j: int| 0 <= j < i ==> bytes@[j] != 0,
        decreases bytes@.len() - i,
    {
        if bytes[i] == 0 {
            return true;
        }
        i = i + 1;
    }
    false
}

/// Copies bytes into a new vector.
pub fn copy_bytes(s: &[u8]) -> (r: Vec<u8>)
    ensures
        r@ == s@,
{
    let mut v: Vec<u8> = Vec::new();
    let mut i: usize = 0;
    while i < s.len()
        invariant
            i <= s@.len(),
            v@ == s@.subrange(0, i as int),
        decreases s@.len() - i,
    {
        v.push(s[i]);
        i = i + 1;
    }
    assert(v@ =~= s@);
    v
}

/// Compares two byte strings.
pub fn bytes_eq(a: &[u8], b: &[u8]) -> (r: bool)
    ensures
        r == (a@ == b@),
{
    if a.len() != b.len() {
        return false;
    }
    let mut i: usize = 0;
    while i < a.len()
        invariant
            i <= a@.len(),
            a@.len() == b@.len(),
            forall|j: int| 0 <= j < i ==> a@[j] == b@[j],
        decreases a@.len() - i,
    {
        if a[i] != b[i] {
            return false;
        }
        i = i + 1;
    }
    assert(a@ =~= b@);
    true
}

/// A Zend string.
#[derive(Debug)]
pub struct ZendStr {
    val: Vec<u8>,
    persistent: bool,
    interned: bool,
    refcount: u32,
}

impl View for ZendStr {
    type V = Seq<u8>;

    closed spec fn view(&self) -> Seq<u8> {
        self.val@
    }
}

impl ZendStr {
    /// Whether the string outlives requests.
    pub closed spec fn is_persistent(&self) -> bool {
        self.persistent
    }

    /// Whether the string is held in the engine's interned string table.
    pub closed spec fn is_interned(&self) -> bool {
        self.interned
    }

    /// The reference count of the string.
    pub closed spec fn count(&self) -> u32 {
        self.refcount
    }

    /// Creates a new Zend string holding the given bytes.
    pub fn new(s: &[u8], persistent: bool) -> (r: ZendStr)
        ensures
            r@ == s@,
            r.is_persistent() == persistent,
            !r.is_interned(),
            r.count() == 1,
    {
        ZendStr { val: copy_bytes(s), persistent, interned: false, refcount: 1 }
    }

    /// Creates a new interned Zend string holding the given bytes.
    pub fn new_interned(s: &[u8], persistent: bool) -> (r: ZendStr)
        ensures
            r@ == s@,
            r.is_persistent() == persistent,
            r.is_interned(),
            r.count() == 1,
    {
        ZendStr { val: copy_bytes(s), persistent, interned: true, refcount: 1 }
    }

    /// Creates a new Zend string holding the bytes of a Rust string.
    pub fn from_str(s: &str, persistent: bool) -> (r: ZendStr)
        ensures
            r@ == s.spec_bytes(),
            r.is_persistent() == persistent,
            !r.is_interned(),
            r.count() == 1,
    {
        ZendStr::new(s.as_bytes(), persistent)
    }

    /// Returns the length of the string in bytes.
    pub fn len(&self) -> (r: usize)
        ensures
            r == self@.len(),
    {
        self.val.len()
    }

    /// Returns whether the string is empty.
    pub fn is_empty(&self) -> (r: bool)
        ensures
            r == (self@.len() == 0),
    {
        self.val.len() == 0
    }

    /// Returns the bytes of the string.
    pub fn as_bytes(&self) -> (r: &[u8])
        ensures
            r@ == self@,
    {
        self.val.as_slice()
    }

    /// Returns the string as UTF-8 text, or an error if it is not valid UTF-8.
    pub fn as_str(&self) -> (r: Result<&str, Error>)
        ensures
            r is Ok <==> valid_utf8(self@),
            r matches Ok(s) ==> s.spec_bytes() == self@,
            r matches Err(e) ==> e == Error::InvalidUtf8,
    {
        match utf8_str(self.val.as_slice()) {
            Some(s) => Ok(s),
            None => Err(Error::InvalidUtf8),
        }
    }

    /// Returns the string as an owned Rust string, if it is valid UTF-8.
    pub fn to_string(&self) -> (r: Result<String, Error>)
        ensures
            r is Ok <==> valid_utf8(self@),
            r matches Ok(s) ==> s@ == decode_utf8(self@),
            r matches Err(e) ==> e == Error::InvalidUtf8,
    {
        match self.as_str() {
            Ok(s) => {
                proof {
                    encode_utf8_decode_utf8(s@);
                }
                Ok(s.to_owned())
            },
            Err(e) => Err(e),
        }
    }

    /// Returns a fresh, non-persistent copy of the string.
    pub fn to_owned(&self) -> (r: ZendStr)
        ensures
            r@ == self@,
            !r.is_persistent(),
            !r.is_interned(),
            r.count() == 1,
    {
        ZendStr::new(self.val.as_slice(), false)
    }

    /// Makes an identical copy of the string, flags and count included.
    pub fn duplicate(&self) -> (r: ZendStr)
        ensures
            r@ == self@,
            r.is_persistent() == self.is_persistent(),
            r.is_interned() == self.is_interned(),
            r.count() == self.count(),
    {
        ZendStr {
            val: copy_bytes(self.val.as_slice()),
            persistent: self.persistent,
            interned: self.interned,
            refcount: self.refcount,
        }
    }

    /// Whether the string holds exactly the given bytes.
    pub fn eq_bytes(&self, other: &[u8]) -> (r: bool)
        ensures
            r == (self@ == other@),
    {
        bytes_eq(self.val.as_slice(), other)
    }

    /// Returns the reference count.
    pub fn get_count(&self) -> (r: u32)
        ensures
            r == self.count(),
    {
        self.refcount
    }

    /// Increments the reference count.
    pub fn inc_count(&mut self)
        requires
            old(self).count() < u32::MAX,
        ensures
            final(self).count() == old(self).count() + 1,
            final(self)@ == old(self)@,
            final(self).is_persistent() == old(self).is_persistent(),
            final(self).is_interned() == old(self).is_interned(),
    {
        self.refcount = self.refcount + 1;
    }

    /// Decrements the reference count.
    pub fn dec_count(&mut self)
        requires
            old(self).count() > 0,
        ensures
            final(self).count() == old(self).count() - 1,
            final(self)@ == old(self)@,
            final(self).is_persistent() == old(self).is_persistent(),
            final(self).is_interned() == old(self).is_interned(),
    {
        self.refcount = self.refcount - 1;
    }
}

/// An owned Zend string whose contents can be handed to C (no NUL byte).
#[derive(Debug)]
pub struct ZendString {
    inner: ZendStr,
}

impl View for ZendString {
    type V = Seq<u8>;

    closed spec fn view(&self) -> Seq<u8> {
        self.inner@
    }
}

impl ZendString {
    /// The Zend string held inside.
    pub closed spec fn inner(&self) -> ZendStr {
        self.inner
    }

    /// Creates a Zend string from Rust text; fails if the text holds a NUL
    /// byte.
    pub fn new(s: &str, persistent: bool) -> (r: Result<ZendString, Error>)
        ensures
            r is Ok <==> !has_nul(s.spec_bytes()),
            r matches Ok(z) ==> z@ == s.spec_bytes() && z.inner().is_persistent() == persistent
                && !z.inner().is_interned(),
            r matches Err(e) ==> e == Error::InvalidCString,
    {
        let bytes = s.as_bytes();
        if contains_nul(bytes) {
            return Err(Error::InvalidCString);
        }
        Ok(ZendString { inner: ZendStr::new(bytes, persistent) })
    }

    /// Creates an interned Zend string from Rust text; fails if the text
    /// holds a NUL byte.
    pub fn new_interned(s: &str, persistent: bool) -> (r: Result<ZendString, Error>)
        ensures
            r is Ok <==> !has_nul(s.spec_bytes()),
            r matches Ok(z) ==> z@ == s.spec_bytes() && z.inner().is_persistent() == persistent
                && z.inner().is_interned(),
            r matches Err(e) ==> e == Error::InvalidCString,
    {
        let bytes = s.as_bytes();
        if contains_nul(bytes) {
            return Err(Error::InvalidCString);
        }
        Ok(ZendString { inner: ZendStr::new_interned(bytes, persistent) })
    }

    /// Borrows the Zend string.
    pub fn as_zend_str(&self) -> (r: &ZendStr)
        ensures
            *r == self.inner(),
    {
        &self.inner
    }

    /// Releases the Zend string.
    pub fn into_inner(self) -> (r: ZendStr)
        ensures
            r == self.inner(),
    {
        self.inner
    }

    /// Returns the text of the string, if it is valid UTF-8.
    pub fn as_str(&self) -> (r: Option<&str>)
        ensures
            r is Some <==> valid_utf8(self@),
            r matches Some(s) ==> s.spec_bytes() == self@,
    {
        self.inner.as_str().ok()
    }
}

} // verus!
