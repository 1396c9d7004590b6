//! Keys of PHP arrays: integers or strings.

use vstd::prelude::*;
use vstd::string::*;
use vstd::utf8::*;

use crate::error::Error;
use crate::text::{all_digits, decimal, digits_value, i64_to_string, is_digit, nat_digits, parse_i64, spec_parse_i64};
use crate::zval::ascii_bytes;
use crate::zval::{model_long, model_text, Zval, ZvalModel};

verus! {

/// Represents the key of a PHP array, which can be either a long or a string.
#[derive(Debug, PartialEq)]
pub enum ArrayKey<'a> {
    /// A numerical key.
    Long(i64),
    /// A string key.
    String(String),
    /// A string key by reference.
    Str(&'a str),
}

/// Abstract array key.
pub enum KeyModel {
    Long(i64),
    String(Seq<char>),
    Str(Seq<char>),
}

impl<'a> View for ArrayKey<'a> {
    type V = KeyModel;

    open spec fn view(&self) -> KeyModel {
        match self {
            ArrayKey::Long(i) => KeyModel::Long(*i),
            ArrayKey::String(s) => KeyModel::String(s@),
            ArrayKey::Str(s) => KeyModel::Str(s@),
        }
    }
}

/// The text of a key: the decimal text of an integer, or the string.
pub open spec fn key_text(k: KeyModel) -> Seq<char> {
    match k {
        KeyModel::Long(i) => decimal(i as int),
        KeyModel::String(s) => s,
        KeyModel::Str(s) => s,
    }
}

/// The integer a key denotes: itself, or its text read as a decimal integer.
pub open spec fn key_long(k: KeyModel) -> Option<i64> {
    match k {
        KeyModel::Long(i) => Some(i),
        KeyModel::String(s) => spec_parse_i64(encode_utf8(s)),
        KeyModel::Str(s) => spec_parse_i64(encode_utf8(s)),
    }
}

/// The key a zval denotes: its integer, else its text.
pub open spec fn zval_key(z: ZvalModel) -> Option<KeyModel> {
    match model_long(z) {
        Some(l) => Some(KeyModel::Long(l)),
        None => match model_text(z) {
            Some(t) => Some(KeyModel::String(t)),
            None => None,
        },
    }
}

impl<'a> ArrayKey<'a> {
    /// A key from an owned string: an integer key when the string reads as a
    /// decimal integer, else a string key.
    pub fn from_string(value: String) -> (r: ArrayKey<'static>)
        ensures
            r == (match spec_parse_i64(encode_utf8(value@)) {
                Some(i) => ArrayKey::Long(i),
                None => ArrayKey::String(value),
            }),
    {
        match parse_i64(value.as_str().as_bytes()) {
            Some(i) => ArrayKey::Long(i),
            None => ArrayKey::String(value),
        }
    }

    /// A key from a borrowed string: an integer key when the string reads as
    /// a decimal integer, else a string key.
    pub fn from_str(value: &'a str) -> (r: ArrayKey<'a>)
        ensures
            r == (match spec_parse_i64(value.spec_bytes()) {
                Some(i) => ArrayKey::Long(i),
                None => ArrayKey::Str(value),
            }),
    {
        match parse_i64(value.as_bytes()) {
            Some(i) => ArrayKey::Long(i),
            None => ArrayKey::Str(value),
        }
    }

    /// An integer key.
    pub fn from_long(index: i64) -> (r: ArrayKey<'a>)
        ensures
            r == ArrayKey::Long(index),
    {
        ArrayKey::Long(index)
    }

    /// Check if the key is an integer.
    pub fn is_long(&self) -> (r: bool)
        ensures
            r == (self@ is Long),
    {
        match self {
            ArrayKey::Long(_) => true,
            ArrayKey::String(_) | ArrayKey::Str(_) => false,
        }
    }

    /// The text of the key.
    pub fn to_string(&self) -> (r: String)
        ensures
            r@ == key_text(self@),
    {
        match self {
            ArrayKey::Long(key) => i64_to_string(*key),
            ArrayKey::String(key) => key.clone(),
            ArrayKey::Str(key) => (*key).to_owned(),
        }
    }

    /// The key as a string; never fails.
    pub fn try_into_string(self) -> (r: Result<String, Error>)
        ensures
            r matches Ok(s) && s@ == key_text(self@),
    {
        match self {
            ArrayKey::String(s) => Ok(s),
            ArrayKey::Str(s) => Ok(s.to_owned()),
            ArrayKey::Long(l) => Ok(i64_to_string(l)),
        }
    }

    /// The key as an integer; fails with [`Error::InvalidProperty`] when a
    /// string key does not read as a decimal integer.
    pub fn try_into_i64(self) -> (r: Result<i64, Error>)
        ensures
            r == (match key_long(self@) {
                Some(i) => Ok::<i64, Error>(i),
                None => Err(Error::InvalidProperty),
            }),
    {
        match self {
            ArrayKey::Long(i) => Ok(i),
            ArrayKey::String(s) => match parse_i64(s.as_str().as_bytes()) {
                Some(i) => Ok(i),
                None => Err(Error::InvalidProperty),
            },
            ArrayKey::Str(s) => match parse_i64(s.as_bytes()) {
                Some(i) => Ok(i),
                None => Err(Error::InvalidProperty),
            },
        }
    }

    /// The key a zval denotes: its integer, else its UTF-8 text, else
    /// [`None`].
    pub fn from_zval(zval: &Zval) -> (r: Option<ArrayKey<'static>>)
        ensures
            r is Some <==> zval_key(zval@) is Some,
            r matches Some(k) ==> zval_key(zval@) == Some(k@),
    {
        if let Some(key) = zval.long() {
            return Some(ArrayKey::Long(key));
        }
        if let Some(key) = zval.string() {
            return Some(ArrayKey::String(key));
        }
        None
    }
}

impl From<i64> for ArrayKey<'_> {
    fn from(index: i64) -> (r: Self) {
        ArrayKey::Long(index)
    }
}

impl vstd::std_specs::convert::FromSpecImpl<i64> for ArrayKey<'_> {
    open spec fn obeys_from_spec() -> bool {
        true
    }

    open spec fn from_spec(index: i64) -> Self {
        ArrayKey::Long(index)
    }
}

impl From<String> for ArrayKey<'_> {
    fn from(value: String) -> (r: Self) {
        match parse_i64(value.as_str().as_bytes()) {
            Some(i) => ArrayKey::Long(i),
            None => ArrayKey::String(value),
        }
    }
}

impl vstd::std_specs::convert::FromSpecImpl<String> for ArrayKey<'_> {
    open spec fn obeys_from_spec() -> bool {
        true
    }

    open spec fn from_spec(value: String) -> Self {
        match spec_parse_i64(encode_utf8(value@)) {
            Some(i) => ArrayKey::Long(i),
            None => ArrayKey::String(value),
        }
    }
}

impl<'a> From<&'a str> for ArrayKey<'a> {
    fn from(value: &'a str) -> (r: Self) {
        ArrayKey::from_str(value)
    }
}

impl<'a> vstd::std_specs::convert::FromSpecImpl<&'a str> for ArrayKey<'a> {
    open spec fn obeys_from_spec() -> bool {
        true
    }

    open spec fn from_spec(value: &'a str) -> Self {
        match spec_parse_i64(value.spec_bytes()) {
            Some(i) => ArrayKey::Long(i),
            None => ArrayKey::Str(value),
        }
    }
}

impl TryFrom<ArrayKey<'_>> for i64 {
    type Error = Error;

    fn try_from(value: ArrayKey<'_>) -> (r: Result<i64, Error>) {
        value.try_into_i64()
    }
}

impl vstd::std_specs::convert::TryFromSpecImpl<ArrayKey<'_>> for i64 {
    open spec fn obeys_try_from_spec() -> bool {
        true
    }

    open spec fn try_from_spec(value: ArrayKey<'_>) -> Result<i64, Error> {
        match key_long(value@) {
            Some(i) => Ok(i),
            None => Err(Error::InvalidProperty),
        }
    }
}

impl TryFrom<ArrayKey<'_>> for String {
    type Error = Error;

    fn try_from(value: ArrayKey<'_>) -> (r: Result<String, Error>)
        ensures
            r matches Ok(s) && s@ == key_text(value@),
    {
        value.try_into_string()
    }
}

impl vstd::std_specs::convert::TryFromSpecImpl<ArrayKey<'_>> for String {
    open spec fn obeys_try_from_spec() -> bool {
        false
    }

    open spec fn try_from_spec(value: ArrayKey<'_>) -> Result<String, Error> {
        vstd::pervasive::arbitrary()
    }
}

/// The bytes of decimal digits are digits, worth the number, the first
/// being a digit.
proof fn lemma_nat_digits_value(n: nat)
    ensures
        ({
            let b = ascii_bytes(nat_digits(n));
            &&& b.len() >= 1
            &&& all_digits(b)
            &&& digits_value(b) == n
        }),
    decreases n,
{
    let b = ascii_bytes(nat_digits(n));
    if n < 10 {
        assert(b.len() == 1);
        assert(b[0] == (n + 48) as u8);
        assert(b.drop_last() =~= Seq::<u8>::empty());
        assert(b.last() == b[0]);
        assert(digits_value(b) == digits_value(b.drop_last()) * 10 + (b.last() - 48));
        assert(digits_value(b) == n);
        assert(is_digit(b[0]));
    } else {
        lemma_nat_digits_value(n / 10);
        let p = ascii_bytes(nat_digits(n / 10));
        assert(b.drop_last() =~= p);
        assert(b.last() == ((n % 10) + 48) as u8);
        assert forall|i: int| 0 <= i < b.len() implies is_digit(#[trigger] b[i]) by {
            if i < p.len() {
                assert(b[i] == p[i]);
            }
        }
        assert(n == (n / 10) * 10 + n % 10);
        assert(digits_value(b) == digits_value(p) * 10 + (b.last() - 48));
        assert(digits_value(b) == n);
    }
}

/// The text of an integer reads back as the integer: a key made from the
/// decimal text of an integer is that integer key.
pub proof fn law_key_of_integer_text(v: i64)
    ensures
        spec_parse_i64(encode_utf8(decimal(v as int))) == Some(v),
        key_long(KeyModel::String(decimal(v as int))) == Some(v),
{
    let d = decimal(v as int);
    crate::zval::lemma_decimal_ascii(v as int);
    is_ascii_chars_encode_utf8(d);
    let b = encode_utf8(d);
    assert(b =~= ascii_bytes(d));
    if v < 0 {
        let m = (-(v as int)) as nat;
        lemma_nat_digits_value(m);
        let digits = ascii_bytes(nat_digits(m));
        assert(b[0] == 45u8);
        assert(b.subrange(1, b.len() as int) =~= digits);
    } else {
        lemma_nat_digits_value(v as nat);
        assert(b.subrange(0, b.len() as int) =~= b);
    }
}

} // verus!
