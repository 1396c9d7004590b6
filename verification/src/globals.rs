//! The state of the PHP executor, of the process and of the SAPI that Rust
//! code reads.

use vstd::prelude::*;
use vstd::string::*;
use vstd::utf8::*;

use crate::array::ZendHashTable;
use crate::linked_list::{ZendLinkedList, ZendLinkedListIterator};
use crate::object::{ObjectModel, ZendObject};
use crate::zval::{model_array, Zval};

verus! {

/// The state of the executor: the pending exception, the handle the next
/// object created gets, and the global tables once they are set up.
#[derive(Debug)]
pub struct ExecutorGlobals {
    pub exception: Option<ZendObject>,
    pub next_handle: u32,
    pub class_table: Option<ZendHashTable>,
    pub function_table: Option<ZendHashTable>,
    pub zend_constants: Option<ZendHashTable>,
    pub vm_interrupt: bool,
}

/// Abstract executor state.
pub struct ExecutorModel {
    pub exception: Option<ObjectModel>,
    pub next_handle: u32,
}

impl View for ExecutorGlobals {
    type V = ExecutorModel;

    open spec fn view(&self) -> ExecutorModel {
        ExecutorModel {
            exception: match &self.exception {
                Some(o) => Some(o@),
                None => None,
            },
            next_handle: self.next_handle,
        }
    }
}

/// Whether two executor states hold the same global tables and the same
/// interrupt flag.
pub open spec fn tables_kept(a: ExecutorGlobals, b: ExecutorGlobals) -> bool {
    &&& a.class_table == b.class_table
    &&& a.function_table == b.function_table
    &&& a.zend_constants == b.zend_constants
    &&& a.vm_interrupt == b.vm_interrupt
}

impl ExecutorGlobals {
    /// The state of a fresh executor: no pending exception, and object
    /// handles starting at 1.
    pub fn new() -> (r: ExecutorGlobals)
        ensures
            r@ == (ExecutorModel { exception: None, next_handle: 1 }),
            r.class_table is None,
            r.function_table is None,
            r.zend_constants is None,
            !r.vm_interrupt,
    {
        ExecutorGlobals {
            exception: None,
            next_handle: 1,
            class_table: None,
            function_table: None,
            zend_constants: None,
            vm_interrupt: false,
        }
    }

    /// Requests an interrupt of the virtual machine.
    pub fn request_interrupt(&mut self)
        ensures
            final(self).vm_interrupt,
            final(self)@ == old(self)@,
            final(self).class_table == old(self).class_table,
            final(self).function_table == old(self).function_table,
            final(self).zend_constants == old(self).zend_constants,
    {
        self.vm_interrupt = true;
    }

    /// Cancels a requested interrupt of the virtual machine.
    pub fn cancel_interrupt(&mut self)
        ensures
            !final(self).vm_interrupt,
            final(self)@ == old(self)@,
            final(self).class_table == old(self).class_table,
            final(self).function_table == old(self).function_table,
            final(self).zend_constants == old(self).zend_constants,
    {
        self.vm_interrupt = false;
    }

    /// The global class table, if it is set up.
    pub fn class_table(&self) -> (r: Option<&ZendHashTable>)
        ensures
            r is Some <==> self.class_table is Some,
            r matches Some(t) ==> self.class_table == Some(*t),
    {
        self.class_table.as_ref()
    }

    /// The global function table, if it is set up.
    pub fn function_table(&self) -> (r: Option<&ZendHashTable>)
        ensures
            r is Some <==> self.function_table is Some,
            r matches Some(t) ==> self.function_table == Some(*t),
    {
        self.function_table.as_ref()
    }

    /// The global constants table, if it is set up.
    pub fn constants(&self) -> (r: Option<&ZendHashTable>)
        ensures
            r is Some <==> self.zend_constants is Some,
            r matches Some(t) ==> self.zend_constants == Some(*t),
    {
        self.zend_constants.as_ref()
    }

    /// Checks if the executor holds a pending exception.
    pub fn has_exception(&self) -> (r: bool)
        ensures
            r == self@.exception is Some,
    {
        self.exception.is_some()
    }

    /// Takes the pending exception out of the executor, if there is one.
    pub fn take_exception(&mut self) -> (r: Option<ZendObject>)
        ensures
            final(self)@ == (ExecutorModel { exception: None, ..old(self)@ }),
            r is Some <==> old(self)@.exception is Some,
            tables_kept(*final(self), *old(self)),
            r matches Some(o) ==> old(self)@.exception == Some(o@),
    {
        self.exception.take()
    }

    /// Takes the pending exception out of the executor and returns it as the
    /// error, or succeeds when none is pending.
    pub fn throw_if_exception(&mut self) -> (r: Result<(), ZendObject>)
        ensures
            final(self)@ == (ExecutorModel { exception: None, ..old(self)@ }),
            r is Err <==> old(self)@.exception is Some,
            tables_kept(*final(self), *old(self)),
            r matches Err(o) ==> old(self)@.exception == Some(o@),
    {
        match self.take_exception() {
            Some(e) => Err(e),
            None => Ok(()),
        }
    }
}

/// `TRACK_VARS_POST`: the slot of `$_POST`.
pub const TRACK_VARS_POST: usize = 0;
/// `TRACK_VARS_GET`: the slot of `$_GET`.
pub const TRACK_VARS_GET: usize = 1;
/// `TRACK_VARS_COOKIE`: the slot of `$_COOKIE`.
pub const TRACK_VARS_COOKIE: usize = 2;
/// `TRACK_VARS_SERVER`: the slot of `$_SERVER`.
pub const TRACK_VARS_SERVER: usize = 3;
/// `TRACK_VARS_ENV`: the slot of `$_ENV`.
pub const TRACK_VARS_ENV: usize = 4;
/// `TRACK_VARS_FILES`: the slot of `$_FILES`.
pub const TRACK_VARS_FILES: usize = 5;

/// The globals of the process: the superglobal arrays of the request, by
/// slot.
#[derive(Debug)]
pub struct ProcessGlobals {
    pub http_globals: Vec<Zval>,
}

/// Whether the slot holds an array.
pub open spec fn slot_is_array(g: Seq<Zval>, slot: int) -> bool {
    0 <= slot < g.len() && model_array(g[slot]@) is Some
}

impl ProcessGlobals {
    /// The array in a slot; the slot must hold an array.
    fn slot_array(&self, slot: usize) -> (r: &ZendHashTable)
        requires
            slot_is_array(self.http_globals@, slot as int),
        ensures
            model_array(self.http_globals@[slot as int]@) == Some(r@),
    {
        self.http_globals[slot].array().unwrap()
    }

    /// The HTTP POST variables, `$_POST`; the slot must hold an array.
    pub fn http_post_vars(&self) -> (r: &ZendHashTable)
        requires
            slot_is_array(self.http_globals@, TRACK_VARS_POST as int),
        ensures
            model_array(self.http_globals@[TRACK_VARS_POST as int]@) == Some(r@),
    {
        self.slot_array(TRACK_VARS_POST)
    }

    /// The HTTP GET variables, `$_GET`; the slot must hold an array.
    pub fn http_get_vars(&self) -> (r: &ZendHashTable)
        requires
            slot_is_array(self.http_globals@, TRACK_VARS_GET as int),
        ensures
            model_array(self.http_globals@[TRACK_VARS_GET as int]@) == Some(r@),
    {
        self.slot_array(TRACK_VARS_GET)
    }

    /// The HTTP cookie variables, `$_COOKIE`; the slot must hold an array.
    pub fn http_cookie_vars(&self) -> (r: &ZendHashTable)
        requires
            slot_is_array(self.http_globals@, TRACK_VARS_COOKIE as int),
        ensures
            model_array(self.http_globals@[TRACK_VARS_COOKIE as int]@) == Some(r@),
    {
        self.slot_array(TRACK_VARS_COOKIE)
    }

    /// The environment variables, `$_ENV`; the slot must hold an array.
    pub fn http_env_vars(&self) -> (r: &ZendHashTable)
        requires
            slot_is_array(self.http_globals@, TRACK_VARS_ENV as int),
        ensures
            model_array(self.http_globals@[TRACK_VARS_ENV as int]@) == Some(r@),
    {
        self.slot_array(TRACK_VARS_ENV)
    }

    /// The uploaded files, `$_FILES`; the slot must hold an array.
    pub fn http_files_vars(&self) -> (r: &ZendHashTable)
        requires
            slot_is_array(self.http_globals@, TRACK_VARS_FILES as int),
        ensures
            model_array(self.http_globals@[TRACK_VARS_FILES as int]@) == Some(r@),
    {
        self.slot_array(TRACK_VARS_FILES)
    }
}

/// The text of a C string the SAPI holds: [`None`] when it is absent or not
/// UTF-8.
fn c_text_of(s: &Option<Vec<u8>>) -> (r: Option<&str>)
    ensures
        r is Some <==> (s matches Some(b) && valid_utf8(b@)),
        r matches Some(t) ==> (s matches Some(b) && t.spec_bytes() == b@),
{
    match s {
        Some(b) => crate::string::utf8_str(b.as_slice()),
        None => None,
    }
}

/// The text of a C string the SAPI holds: [`None`] when it is absent or not
/// UTF-8.
pub open spec fn spec_c_text(s: Option<Vec<u8>>) -> Option<Seq<u8>> {
    match s {
        Some(b) => if valid_utf8(b@) {
            Some(b@)
        } else {
            None
        },
        None => None,
    }
}

/// The information the SAPI holds about the current request.
#[derive(Debug)]
pub struct SapiRequestInfo {
    pub request_method: Option<Vec<u8>>,
    pub query_string: Option<Vec<u8>>,
    pub cookie_data: Option<Vec<u8>>,
    pub path_translated: Option<Vec<u8>>,
    pub request_uri: Option<Vec<u8>>,
    pub content_type: Option<Vec<u8>>,
    pub auth_user: Option<Vec<u8>>,
    pub auth_password: Option<Vec<u8>>,
    pub auth_digest: Option<Vec<u8>>,
    pub argv0: Option<Vec<u8>>,
    pub current_user: Option<Vec<u8>>,
    pub argv: Option<Vec<u8>>,
    pub content_length: i64,
    pub headers_only: bool,
    pub no_headers: bool,
    pub headers_read: bool,
    pub current_user_length: i32,
    pub argc: i32,
    pub proto_num: i32,
}

impl SapiRequestInfo {
    /// The request method. [`None`] when absent or not UTF-8.
    pub fn request_method(&self) -> (r: Option<&str>)
        ensures
            (match r {
                Some(t) => Some(t.spec_bytes()),
                None => None::<Seq<u8>>,
            }) == spec_c_text(self.request_method),
    {
        c_text_of(&self.request_method)
    }

    /// The query string. [`None`] when absent or not UTF-8.
    pub fn query_string(&self) -> (r: Option<&str>)
        ensures
            (match r {
                Some(t) => Some(t.spec_bytes()),
                None => None::<Seq<u8>>,
            }) == spec_c_text(self.query_string),
    {
        c_text_of(&self.query_string)
    }

    /// The cookies sent. [`None`] when absent or not UTF-8.
    pub fn cookie_data(&self) -> (r: Option<&str>)
        ensures
            (match r {
                Some(t) => Some(t.spec_bytes()),
                None => None::<Seq<u8>>,
            }) == spec_c_text(self.cookie_data),
    {
        c_text_of(&self.cookie_data)
    }

    /// The path of the script. [`None`] when absent or not UTF-8.
    pub fn path_translated(&self) -> (r: Option<&str>)
        ensures
            (match r {
                Some(t) => Some(t.spec_bytes()),
                None => None::<Seq<u8>>,
            }) == spec_c_text(self.path_translated),
    {
        c_text_of(&self.path_translated)
    }

    /// The request URI. [`None`] when absent or not UTF-8.
    pub fn request_uri(&self) -> (r: Option<&str>)
        ensures
            (match r {
                Some(t) => Some(t.spec_bytes()),
                None => None::<Seq<u8>>,
            }) == spec_c_text(self.request_uri),
    {
        c_text_of(&self.request_uri)
    }

    /// The content type of the request body. [`None`] when absent or not UTF-8.
    pub fn content_type(&self) -> (r: Option<&str>)
        ensures
            (match r {
                Some(t) => Some(t.spec_bytes()),
                None => None::<Seq<u8>>,
            }) == spec_c_text(self.content_type),
    {
        c_text_of(&self.content_type)
    }

    /// The user name of HTTP authentication. [`None`] when absent or not UTF-8.
    pub fn auth_user(&self) -> (r: Option<&str>)
        ensures
            (match r {
                Some(t) => Some(t.spec_bytes()),
                None => None::<Seq<u8>>,
            }) == spec_c_text(self.auth_user),
    {
        c_text_of(&self.auth_user)
    }

    /// The password of HTTP authentication. [`None`] when absent or not UTF-8.
    pub fn auth_password(&self) -> (r: Option<&str>)
        ensures
            (match r {
                Some(t) => Some(t.spec_bytes()),
                None => None::<Seq<u8>>,
            }) == spec_c_text(self.auth_password),
    {
        c_text_of(&self.auth_password)
    }

    /// The digest of HTTP authentication. [`None`] when absent or not UTF-8.
    pub fn auth_digest(&self) -> (r: Option<&str>)
        ensures
            (match r {
                Some(t) => Some(t.spec_bytes()),
                None => None::<Seq<u8>>,
            }) == spec_c_text(self.auth_digest),
    {
        c_text_of(&self.auth_digest)
    }

    /// The name the program was run with. [`None`] when absent or not UTF-8.
    pub fn argv0(&self) -> (r: Option<&str>)
        ensures
            (match r {
                Some(t) => Some(t.spec_bytes()),
                None => None::<Seq<u8>>,
            }) == spec_c_text(self.argv0),
    {
        c_text_of(&self.argv0)
    }

    /// The user the script runs as. [`None`] when absent or not UTF-8.
    pub fn current_user(&self) -> (r: Option<&str>)
        ensures
            (match r {
                Some(t) => Some(t.spec_bytes()),
                None => None::<Seq<u8>>,
            }) == spec_c_text(self.current_user),
    {
        c_text_of(&self.current_user)
    }

    /// The first command line argument. [`None`] when absent or not UTF-8.
    pub fn argv(&self) -> (r: Option<&str>)
        ensures
            (match r {
                Some(t) => Some(t.spec_bytes()),
                None => None::<Seq<u8>>,
            }) == spec_c_text(self.argv),
    {
        c_text_of(&self.argv)
    }

    /// The length of the request body.
    pub fn content_length(&self) -> (r: i64)
        ensures
            r == self.content_length,
    {
        self.content_length
    }

    /// Whether only the headers are requested.
    pub fn headers_only(&self) -> (r: bool)
        ensures
            r == self.headers_only,
    {
        self.headers_only
    }

    /// Whether no headers are sent.
    pub fn no_headers(&self) -> (r: bool)
        ensures
            r == self.no_headers,
    {
        self.no_headers
    }

    /// Whether the headers have been read.
    pub fn headers_read(&self) -> (r: bool)
        ensures
            r == self.headers_read,
    {
        self.headers_read
    }

    /// The length of the name of the current user.
    pub fn current_user_length(&self) -> (r: i32)
        ensures
            r == self.current_user_length,
    {
        self.current_user_length
    }

    /// The number of command line arguments.
    pub fn argvc(&self) -> (r: i32)
        ensures
            r == self.argc,
    {
        self.argc
    }

    /// The protocol version of the request, as major * 1000 + minor.
    pub fn proto_num(&self) -> (r: i32)
        ensures
            r == self.proto_num,
    {
        self.proto_num
    }
}

/// A header of the response, as the SAPI stores it (`Name: value`).
#[derive(Debug)]
pub struct SapiHeader {
    pub header: String,
}

/// Whether the character is whitespace as Unicode's `White_Space` property
/// defines it.
pub open spec fn is_white_space(c: char) -> bool {
    let u = c as u32;
    (0x09 <= u <= 0x0d) || u == 0x20 || u == 0x85 || u == 0xa0 || u == 0x1680 || (0x2000 <= u
        <= 0x200a) || u == 0x2028 || u == 0x2029 || u == 0x202f || u == 0x205f || u == 0x3000
}

/// The text without its leading whitespace.
pub open spec fn trim_start(s: Seq<char>) -> Seq<char>
    decreases s.len(),
{
    if s.len() > 0 && is_white_space(s[0]) {
        trim_start(s.drop_first())
    } else {
        s
    }
}

/// The text without its trailing whitespace.
pub open spec fn trim_end(s: Seq<char>) -> Seq<char>
    decreases s.len(),
{
    if s.len() > 0 && is_white_space(s.last()) {
        trim_end(s.drop_last())
    } else {
        s
    }
}

/// The text without leading and trailing whitespace.
pub open spec fn trimmed(s: Seq<char>) -> Seq<char> {
    trim_end(trim_start(s))
}

/// Removes leading and trailing whitespace.
///
/// Trusted: calls `str::trim`, which std documents as returning the text
/// with leading and trailing whitespace removed, whitespace being the
/// characters of Unicode's `White_Space` property.
#[verifier::external_body]
fn trim_str(s: &str) -> (r: &str)
    ensures
        r@ == trimmed(s@),
{
    s.trim()
}

/// The position of the first colon, or the length when there is none.
pub open spec fn first_colon(b: Seq<u8>) -> int
    decreases b.len(),
{
    if b.len() == 0 {
        0
    } else if b[0] == 58u8 {
        0
    } else {
        1 + first_colon(b.drop_first())
    }
}

/// The bytes before the first colon.
pub open spec fn before_colon(b: Seq<u8>) -> Seq<u8> {
    b.subrange(0, first_colon(b))
}

/// A position with no colon before it that holds a colon or ends the bytes
/// is the first colon.
proof fn lemma_first_colon_at(b: Seq<u8>, i: int)
    requires
        0 <= i <= b.len(),
        forall|j: int| 0 <= j < i ==> b[j] != 58u8,
        i == b.len() || b[i] == 58u8,
    ensures
        first_colon(b) == i,
    decreases i,
{
    if i > 0 {
        let t = b.drop_first();
        assert forall|j: int| 0 <= j < i - 1 implies t[j] != 58u8 by {
            assert(t[j] == b[j + 1]);
        }
        lemma_first_colon_at(t, i - 1);
    }
}

/// Finds the first colon, or the length when there is none.
fn find_colon(b: &[u8]) -> (r: usize)
    ensures
        r == first_colon(b@),
        r <= b@.len(),
        r < b@.len() ==> b@[r as int] == 58u8,
{
    let mut i: usize = 0;
    while i < b.len()
        invariant
            i <= b@.len(),
            forall|j: int| 0 <= j < i ==> b@[j] != 58u8,
        decreases b@.len() - i,
    {
        if b[i] == 58u8 {
            proof {
                lemma_first_colon_at(b@, i as int);
            }
            return i;
        }
        i = i + 1;
    }
    proof {
        lemma_first_colon_at(b@, i as int);
    }
    i
}

/// In UTF-8, a position that holds an ASCII byte, or ends the bytes, starts
/// a character.
proof fn lemma_ascii_boundary(b: Seq<u8>, i: int)
    requires
        valid_utf8(b),
        0 <= i <= b.len(),
        i == b.len() || b[i] < 0x80u8,
    ensures
        is_char_boundary(b, i),
    decreases b.len(),
{
    if i > 0 {
        let l = length_of_first_scalar(b);
        let pop = pop_first_scalar(b);
        assert(1 <= l <= 4 && l <= b.len());
        if i < l {
            assert(is_continuation_byte(b[i]));
        }
        assert(pop.len() == b.len() - l);
        if i < b.len() {
            assert(pop[i - l] == b[i]);
        }
        lemma_ascii_boundary(pop, i - l);
    }
}

/// The text of a string slice is that of its bytes.
proof fn lemma_str_bytes(s: &str)
    ensures
        valid_utf8(s.spec_bytes()),
        decode_utf8(s.spec_bytes()) == s@,
{
    encode_utf8_valid_utf8(s@);
    encode_utf8_decode_utf8(s@);
}

impl SapiHeader {
    /// The header line.
    pub fn as_str(&self) -> (r: &str)
        ensures
            r@ == self.header@,
    {
        self.header.as_str()
    }

    /// The name of the header: the text before the first colon, trimmed.
    pub fn name(&self) -> (r: &str)
        ensures
            r@ == trimmed(decode_utf8(before_colon(encode_utf8(self.header@)))),
    {
        let s = self.header.as_str();
        let b = s.as_bytes();
        let p = find_colon(b);
        proof {
            lemma_str_bytes(s);
            lemma_ascii_boundary(b@, p as int);
        }
        let (head, _) = s.split_at(p);
        proof {
            lemma_str_bytes(head);
        }
        trim_str(head)
    }

    /// The value of the header: the text between the first colon and the
    /// next one, trimmed; [`None`] without a colon.
    pub fn value(&self) -> (r: Option<&str>)
        ensures
            ({
                let b = encode_utf8(self.header@);
                let p = first_colon(b);
                &&& p == b.len() ==> r is None
                &&& p < b.len() ==> (r matches Some(v) && v@ == trimmed(
                    decode_utf8(before_colon(b.subrange(p + 1, b.len() as int))),
                ))
            }),
    {
        let s = self.header.as_str();
        let b = s.as_bytes();
        let p = find_colon(b);
        if p == b.len() {
            return None;
        }
        proof {
            lemma_str_bytes(s);
            lemma_ascii_boundary(b@, p as int);
        }
        let (_, rest) = s.split_at(p);
        proof {
            lemma_str_bytes(rest);
            assert(rest.spec_bytes()[0] == 58u8);
            lemma_ascii_boundary(rest.spec_bytes(), 0);
            reveal_with_fuel(is_char_boundary, 2);
            assert(length_of_first_scalar(rest.spec_bytes()) == 1);
        }
        let (_, tail) = rest.split_at(1);
        let tb = tail.as_bytes();
        let q = find_colon(tb);
        proof {
            lemma_str_bytes(tail);
            lemma_ascii_boundary(tb@, q as int);
            assert(tb@ =~= b@.subrange(p + 1, b@.len() as int));
        }
        let (seg, _) = tail.split_at(q);
        proof {
            lemma_str_bytes(seg);
        }
        Some(trim_str(seg))
    }
}

/// The headers of the response.
#[derive(Debug)]
pub struct SapiHeaders {
    pub headers: ZendLinkedList<SapiHeader>,
}

impl SapiHeaders {
    /// Iterates over the headers, in the order they were added.
    pub fn headers(&mut self) -> (r: ZendLinkedListIterator<'_, SapiHeader>)
        ensures
            r.remaining() == old(self).headers@,
            *final(self) == *old(self),
    {
        self.headers.iter()
    }
}

/// The globals of the SAPI.
#[derive(Debug)]
pub struct SapiGlobals {
    pub request_info: SapiRequestInfo,
    pub sapi_headers: SapiHeaders,
}

impl SapiGlobals {
    /// The information about the current request.
    pub fn request_info(&self) -> (r: &SapiRequestInfo)
        ensures
            r == &self.request_info,
    {
        &self.request_info
    }

    /// The headers of the response.
    pub fn sapi_headers(&self) -> (r: &SapiHeaders)
        ensures
            r == &self.sapi_headers,
    {
        &self.sapi_headers
    }
}

} // verus!
