//! Conversions between vectors of key-value pairs and PHP arrays: each pair
//! is stored under its key, and the entries of an array are read back as
//! pairs.

use vstd::prelude::*;
use vstd::utf8::*;

use crate::array::{empty_model, model_insert, ArrayModel, HashKey, ZendHashTable};
use crate::array_key::{key_long, key_text, zval_key, ArrayKey, KeyModel};
use crate::convert::{FromZval, IntoZval};
use crate::error::Error;
use crate::iterators::{key_to_zval, key_zval};
use crate::string::has_nul;
use crate::zval::{array_zval_model, model_type, Zval, ZvalModel};

verus! {

/// The table key a key is stored under: an integer key by its bits, a
/// string key by its UTF-8 bytes.
pub open spec fn key_hash(k: KeyModel) -> HashKey {
    match k {
        KeyModel::Long(i) => HashKey::Index(i as u64),
        KeyModel::String(s) => HashKey::Name(encode_utf8(s)),
        KeyModel::Str(s) => HashKey::Name(encode_utf8(s)),
    }
}

/// Whether a key is a string holding a NUL byte, which no table key can be.
pub open spec fn key_has_nul(k: KeyModel) -> bool {
    match k {
        KeyModel::Long(_) => false,
        KeyModel::String(s) => has_nul(encode_utf8(s)),
        KeyModel::Str(s) => has_nul(encode_utf8(s)),
    }
}

/// The table after storing one pair, or the error: that of the value when
/// it does not become a zval, else [`Error::InvalidCString`] when the key
/// holds a NUL byte.
pub open spec fn insert_pair<'a, V: IntoZval>(m: ArrayModel, p: (ArrayKey<'a>, V)) -> Result<ArrayModel, Error> {
    match p.1.zval_of(false) {
        None => Err(p.1.conversion_error()),
        Some(z) => if key_has_nul(p.0@) {
            Err(Error::InvalidCString)
        } else {
            Ok(model_insert(m, key_hash(p.0@), z))
        },
    }
}

/// The table after storing the pairs in order, or the error of the first
/// pair that cannot be stored.
pub open spec fn insert_all<'a, V: IntoZval>(m: ArrayModel, s: Seq<(ArrayKey<'a>, V)>) -> Result<ArrayModel, Error>
    decreases s.len(),
{
    if s.len() == 0 {
        Ok(m)
    } else {
        match insert_pair(m, s[0]) {
            Err(e) => Err(e),
            Ok(m2) => insert_all(m2, s.drop_first()),
        }
    }
}

/// The table a vector of pairs becomes, or the error: integer overflow when
/// it has more pairs than a table can count, else the error of the first
/// pair that cannot be stored.
pub open spec fn pairs_table<'a, V: IntoZval>(s: Seq<(ArrayKey<'a>, V)>) -> Result<ArrayModel, Error> {
    if s.len() > u32::MAX {
        Err(Error::IntegerOverflow)
    } else {
        insert_all(empty_model(), s)
    }
}

impl ZendHashTable {
    /// Stores a value under a key, or updates the key's value: an integer
    /// key as an index, a string key by its text. Fails with the conversion
    /// error of the value, or with [`Error::InvalidCString`] when a string
    /// key holds a NUL byte.
    pub fn insert_key<'a, V: IntoZval>(&mut self, key: ArrayKey<'a>, val: V) -> (r: Result<(), Error>)
        ensures
            r is Ok <==> insert_pair(old(self)@, (key, val)) is Ok,
            r matches Err(e) ==> insert_pair(old(self)@, (key, val)) == Err::<ArrayModel, Error>(e),
            insert_pair(old(self)@, (key, val)) matches Ok(m) ==> final(self)@ == m,
            r is Err ==> final(self)@ == old(self)@,
            old(self).wf() ==> final(self).wf(),
    {
        match key {
            ArrayKey::Long(i) => self.insert_at_index(i as u64, val),
            ArrayKey::String(s) => self.insert(s.as_str(), val),
            ArrayKey::Str(s) => self.insert(s, val),
        }
    }

    /// Builds a table from key-value pairs, storing each in order. Fails
    /// with [`Error::IntegerOverflow`] when there are more pairs than a
    /// table can count, or with the error of the first pair that cannot be
    /// stored.
    #[verifier::loop_isolation(false)]
    pub fn try_from_pairs<'a, V: IntoZval>(value: Vec<(ArrayKey<'a>, V)>) -> (r: Result<ZendHashTable, Error>)
        ensures
            r is Ok <==> pairs_table(value@) is Ok,
            r matches Ok(h) ==> pairs_table(value@) == Ok::<ArrayModel, Error>(h@) && h.wf(),
            r matches Err(e) ==> pairs_table(value@) == Err::<ArrayModel, Error>(e),
    {
        if value.len() > 4294967295usize {
            return Err(Error::IntegerOverflow);
        }
        let mut ht = ZendHashTable::with_capacity(value.len() as u32);
        let ghost all = value@;
        let mut rest = value;
        while rest.len() > 0
            invariant
                insert_all(empty_model(), all) == insert_all(ht@, rest@),
                all.len() <= u32::MAX,
                ht.wf(),
            decreases rest@.len(),
        {
            let ghost old_rest = rest@;
            let p = rest.remove(0);
            assert(old_rest[0] == p);
            assert(old_rest.drop_first() =~= rest@);
            let (k, v) = p;
            match ht.insert_key(k, v) {
                Ok(()) => {},
                Err(e) => {
                    return Err(e);
                },
            }
        }
        Ok(ht)
    }
}

/// The key an entry's key reads as: an integer key as its integer, a string
/// key as its UTF-8 text; `None` for a string key that is not UTF-8.
pub open spec fn entry_key(k: HashKey) -> Option<KeyModel> {
    zval_key(key_zval(k))
}

/// Whether every key of the entries reads as an integer or as UTF-8 text.
pub open spec fn keys_readable(e: Seq<(HashKey, ZvalModel)>) -> bool {
    forall|i: int| 0 <= i < e.len() ==> (#[trigger] entry_key(e[i].0)) is Some
}

/// Whether every value of the entries reads as a `V`.
pub open spec fn values_read<V: FromZval>(e: Seq<(HashKey, ZvalModel)>) -> bool {
    forall|i: int| 0 <= i < e.len() ==> V::accepts(#[trigger] e[i].1)
}

/// Whether the entry at `i` is the first whose value does not read as a
/// `V`.
pub open spec fn first_unread<V: FromZval>(e: Seq<(HashKey, ZvalModel)>, i: int) -> bool {
    &&& 0 <= i < e.len()
    &&& !V::accepts(e[i].1)
    &&& forall|j: int| 0 <= j < i ==> V::accepts(#[trigger] e[j].1)
}

/// Whether an entry reads as a pair of an integer key and a `V`.
pub open spec fn long_pair_reads<V: FromZval>(p: (HashKey, ZvalModel)) -> bool {
    key_long(entry_key(p.0).unwrap()) is Some && V::accepts(p.1)
}

/// The error of an entry that does not read as a pair of an integer key and
/// a `V`: the key's first, then the value's.
pub open spec fn long_pair_error<V: FromZval>(p: (HashKey, ZvalModel)) -> Error {
    if key_long(entry_key(p.0).unwrap()) is None {
        Error::InvalidProperty
    } else {
        Error::ZvalConversion(model_type(p.1))
    }
}

impl ZendHashTable {
    /// Reads the entries as pairs of their keys and their values read as
    /// `V`s, in order. Fails with [`Error::ZvalConversion`] of the type of
    /// the first value that does not read as a `V`.
    pub fn try_into_pairs<V: FromZval>(&self) -> (r: Result<Vec<(ArrayKey<'static>, V)>, Error>)
        requires
            keys_readable(self@.entries),
        ensures
            r is Ok <==> values_read::<V>(self@.entries),
            r matches Ok(v) ==> v@.len() == self@.entries.len() && forall|i: int|
                0 <= i < v@.len() ==> entry_key(self@.entries[i].0) == Some((#[trigger] v@[i]).0@)
                    && V::read_as(self@.entries[i].1, v@[i].1),
            r matches Err(e) ==> exists|i: int|
                first_unread::<V>(self@.entries, i) && e == Error::ZvalConversion(
                    model_type(#[trigger] self@.entries[i].1),
                ),
    {
        let mut out: Vec<(ArrayKey<'static>, V)> = Vec::new();
        let mut i: usize = 0;
        while i < self.len()
            invariant
                i <= self@.entries.len(),
                keys_readable(self@.entries),
                out@.len() == i,
                forall|j: int|
                    0 <= j < i ==> entry_key(self@.entries[j].0) == Some((#[trigger] out@[j]).0@)
                        && V::read_as(self@.entries[j].1, out@[j].1),
                forall|j: int| 0 <= j < i ==> V::accepts(#[trigger] self@.entries[j].1),
            decreases self@.entries.len() - i,
        {
            let (k, zv) = self.entry_at(i);
            let kz = key_to_zval(k);
            assert(entry_key(self@.entries[i as int].0) is Some);
            let key = match ArrayKey::from_zval(&kz) {
                Some(key) => key,
                None => {
                    return Err(Error::InvalidProperty);
                },
            };
            match V::from_zval(zv) {
                Some(v) => {
                    out.push((key, v));
                },
                None => {
                    assert(first_unread::<V>(self@.entries, i as int));
                    return Err(Error::ZvalConversion(zv.get_type()));
                },
            }
            i = i + 1;
        }
        Ok(out)
    }

    /// Reads the entries as pairs of their keys as integers and their values
    /// read as `V`s, in order. Fails, at the first entry that does not read,
    /// with [`Error::InvalidProperty`] when its key is a string that does not
    /// read as a decimal integer, else with [`Error::ZvalConversion`] of the
    /// type of its value.
    pub fn try_into_long_pairs<V: FromZval>(&self) -> (r: Result<Vec<(i64, V)>, Error>)
        requires
            keys_readable(self@.entries),
        ensures
            r is Ok <==> forall|i: int|
                0 <= i < self@.entries.len() ==> long_pair_reads::<V>(#[trigger] self@.entries[i]),
            r matches Ok(v) ==> v@.len() == self@.entries.len() && forall|i: int|
                0 <= i < v@.len() ==> key_long(entry_key(self@.entries[i].0).unwrap()) == Some(
                    (#[trigger] v@[i]).0,
                ) && V::read_as(self@.entries[i].1, v@[i].1),
            r matches Err(e) ==> exists|i: int|
                0 <= i < self@.entries.len() && !long_pair_reads::<V>(#[trigger] self@.entries[i])
                    && (forall|j: int| 0 <= j < i ==> long_pair_reads::<V>(#[trigger] self@.entries[j]))
                    && e == long_pair_error::<V>(self@.entries[i]),
    {
        let mut out: Vec<(i64, V)> = Vec::new();
        let mut i: usize = 0;
        while i < self.len()
            invariant
                i <= self@.entries.len(),
                keys_readable(self@.entries),
                out@.len() == i,
                forall|j: int|
                    0 <= j < i ==> key_long(entry_key(self@.entries[j].0).unwrap()) == Some(
                        (#[trigger] out@[j]).0,
                    ) && V::read_as(self@.entries[j].1, out@[j].1),
                forall|j: int| 0 <= j < i ==> long_pair_reads::<V>(#[trigger] self@.entries[j]),
            decreases self@.entries.len() - i,
        {
            let (k, zv) = self.entry_at(i);
            let kz = key_to_zval(k);
            assert(entry_key(self@.entries[i as int].0) is Some);
            let key = match ArrayKey::from_zval(&kz) {
                Some(key) => key,
                None => {
                    return Err(Error::InvalidProperty);
                },
            };
            let n = match key.try_into_i64() {
                Ok(n) => n,
                Err(e) => {
                    assert(!long_pair_reads::<V>(self@.entries[i as int]));
                    return Err(e);
                },
            };
            match V::from_zval(zv) {
                Some(v) => {
                    out.push((n, v));
                },
                None => {
                    assert(!long_pair_reads::<V>(self@.entries[i as int]));
                    return Err(Error::ZvalConversion(zv.get_type()));
                },
            }
            i = i + 1;
        }
        Ok(out)
    }

    /// Reads the entries as pairs of the texts of their keys and their
    /// values read as `V`s, in order. Fails with [`Error::ZvalConversion`]
    /// of the type of the first value that does not read as a `V`.
    pub fn try_into_string_pairs<V: FromZval>(&self) -> (r: Result<Vec<(String, V)>, Error>)
        requires
            keys_readable(self@.entries),
        ensures
            r is Ok <==> values_read::<V>(self@.entries),
            r matches Ok(v) ==> v@.len() == self@.entries.len() && forall|i: int|
                0 <= i < v@.len() ==> key_text(entry_key(self@.entries[i].0).unwrap()) == (
                #[trigger] v@[i]).0@ && V::read_as(self@.entries[i].1, v@[i].1),
            r matches Err(e) ==> exists|i: int|
                first_unread::<V>(self@.entries, i) && e == Error::ZvalConversion(
                    model_type(#[trigger] self@.entries[i].1),
                ),
    {
        let mut out: Vec<(String, V)> = Vec::new();
        let mut i: usize = 0;
        while i < self.len()
            invariant
                i <= self@.entries.len(),
                keys_readable(self@.entries),
                out@.len() == i,
                forall|j: int|
                    0 <= j < i ==> key_text(entry_key(self@.entries[j].0).unwrap()) == (
                    #[trigger] out@[j]).0@ && V::read_as(self@.entries[j].1, out@[j].1),
                forall|j: int| 0 <= j < i ==> V::accepts(#[trigger] self@.entries[j].1),
            decreases self@.entries.len() - i,
        {
            let (k, zv) = self.entry_at(i);
            let kz = key_to_zval(k);
            assert(entry_key(self@.entries[i as int].0) is Some);
            let key = match ArrayKey::from_zval(&kz) {
                Some(key) => key,
                None => {
                    return Err(Error::InvalidProperty);
                },
            };
            let text = key.to_string();
            match V::from_zval(zv) {
                Some(v) => {
                    out.push((text, v));
                },
                None => {
                    assert(first_unread::<V>(self@.entries, i as int));
                    return Err(Error::ZvalConversion(zv.get_type()));
                },
            }
            i = i + 1;
        }
        Ok(out)
    }
}

impl Zval {
    /// Sets the value of the zval to the table of the pairs; fails as
    /// building the table fails, leaving the zval unchanged.
    pub fn set_pairs<'a, V: IntoZval>(&mut self, val: Vec<(ArrayKey<'a>, V)>) -> (r: Result<(), Error>)
        ensures
            r is Ok <==> pairs_table(val@) is Ok,
            r is Ok ==> final(self)@ == array_zval_model(pairs_table(val@)->Ok_0),
            r matches Err(e) ==> pairs_table(val@) == Err::<ArrayModel, Error>(e) && final(self)@
                == old(self)@,
    {
        match ZendHashTable::try_from_pairs(val) {
            Ok(h) => {
                self.set_hashtable(h);
                Ok(())
            },
            Err(e) => Err(e),
        }
    }
}

} // verus!
