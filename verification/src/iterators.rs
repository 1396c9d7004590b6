//! Iteration over the entries of a hashtable, from the front and from the
//! back.

use vstd::prelude::*;

use crate::array::{BucketKey, HashKey, ZendHashTable};
use crate::array_key::{zval_key, ArrayKey, KeyModel};
use crate::zval::{long_model, string_model, Zval, ZvalModel};

verus! {

/// The zval the engine reports for a key: the integer of an integer key
/// (its bits read as signed), the string of a string key.
pub open spec fn key_zval(k: HashKey) -> ZvalModel {
    match k {
        HashKey::Index(h) => long_model(h as i64),
        HashKey::Name(s) => string_model(s),
    }
}

/// An integer key reads back as the same 64-bit integer: storing a value at
/// index `i` yields the key `i` for every `i64`, and the key read from a
/// bucket index has exactly that index's bits.
pub proof fn law_integer_keys_read_back(i: i64, h: u64)
    ensures
        zval_key(key_zval(HashKey::Index(i as u64))) == Some(KeyModel::Long(i)),
        zval_key(key_zval(HashKey::Index(h))) matches Some(KeyModel::Long(l)) && l as u64 == h,
{
    crate::flags::lemma_tag_types();
    assert((i as u64) as i64 == i) by (bit_vector);
    assert((h as i64) as u64 == h) by (bit_vector);
}

/// Builds the zval of a bucket key.
pub(crate) fn key_to_zval(k: &BucketKey) -> (r: Zval)
    ensures
        r@ == key_zval(crate::array::key_model(k)),
{
    let mut z = Zval::new();
    match k {
        BucketKey::Index(h) => z.set_long(*h as i64),
        BucketKey::Name(s) => z.set_zend_string(s.duplicate()),
    }
    z
}

/// Iterator over the entries of a hashtable, yielding keys and values.
pub struct Iter<'a> {
    ht: &'a ZendHashTable,
    current: usize,
    end: usize,
}

impl<'a> Iter<'a> {
    #[verifier::type_invariant]
    spec fn wf(&self) -> bool {
        self.current <= self.end <= self.ht.data@.len()
    }

    /// The entries the iterator has yet to yield, in order.
    pub closed spec fn remaining(&self) -> Seq<(HashKey, ZvalModel)> {
        self.ht@.entries.subrange(self.current as int, self.end as int)
    }

    /// The number of entries of the hashtable iterated over.
    pub closed spec fn table_len(&self) -> nat {
        self.ht@.entries.len()
    }

    /// Creates an iterator over the entries of the hashtable.
    pub fn new(ht: &'a ZendHashTable) -> (r: Iter<'a>)
        ensures
            r.remaining() == ht@.entries,
            r.table_len() == ht@.entries.len(),
    {
        let r = Iter { ht, current: 0, end: ht.data.len() };
        assert(r.remaining() =~= ht@.entries);
        r
    }

    /// Returns the key of the next entry as a zval, and its value; the key
    /// zval holds the integer of an integer key and the string of a string
    /// key.
    pub fn next_zval(&mut self) -> (r: Option<(Zval, &'a Zval)>)
        ensures
            final(self).table_len() == old(self).table_len(),
            old(self).remaining().len() == 0 ==> r is None && final(self).remaining() == old(
                self,
            ).remaining(),
            old(self).remaining().len() > 0 ==> (r matches Some((k, v)) && k@ == key_zval(
                old(self).remaining()[0].0,
            ) && v@ == old(self).remaining()[0].1) && final(self).remaining() == old(
                self,
            ).remaining().drop_first(),
    {
        proof {
            use_type_invariant(&*self);
        }
        if self.current >= self.end {
            return None;
        }
        let (k, v) = self.ht.entry_at(self.current);
        let key = key_to_zval(k);
        self.current = self.current + 1;
        assert(self.remaining() =~= old(self).remaining().drop_first());
        Some((key, v))
    }

    /// Returns the key and the value of the next entry. The key of the entry
    /// must be an integer or UTF-8 text.
    pub fn next(&mut self) -> (r: Option<(ArrayKey<'static>, &'a Zval)>)
        requires
            old(self).remaining().len() > 0 ==> zval_key(key_zval(old(self).remaining()[0].0)) is Some,
        ensures
            final(self).table_len() == old(self).table_len(),
            old(self).remaining().len() == 0 ==> r is None && final(self).remaining() == old(
                self,
            ).remaining(),
            old(self).remaining().len() > 0 ==> (r matches Some((k, v)) && Some(k@) == zval_key(
                key_zval(old(self).remaining()[0].0),
            ) && v@ == old(self).remaining()[0].1) && final(self).remaining() == old(
                self,
            ).remaining().drop_first(),
    {
        match self.next_zval() {
            None => None,
            Some((k, v)) => match ArrayKey::from_zval(&k) {
                Some(key) => Some((key, v)),
                None => None,
            },
        }
    }

    /// Returns the key and the value of the last entry not yet yielded. A key
    /// that is neither an integer nor UTF-8 text is reported as the integer
    /// key of the number of entries left, counting this one.
    pub fn next_back(&mut self) -> (r: Option<(ArrayKey<'static>, &'a Zval)>)
        ensures
            final(self).table_len() == old(self).table_len(),
            old(self).remaining().len() == 0 ==> r is None && final(self).remaining() == old(
                self,
            ).remaining(),
            old(self).remaining().len() > 0 ==> ({
                let last = old(self).remaining().last();
                &&& r matches Some((k, v)) && v@ == last.1 && k@ == (match zval_key(key_zval(last.0)) {
                    Some(km) => km,
                    None => KeyModel::Long(old(self).end_count() as i64),
                })
                &&& final(self).remaining() == old(self).remaining().drop_last()
            }),
    {
        proof {
            use_type_invariant(&*self);
        }
        if self.end <= self.current {
            return None;
        }
        let (k, v) = self.ht.entry_at(self.end - 1);
        let kz = key_to_zval(k);
        let key = match ArrayKey::from_zval(&kz) {
            Some(key) => key,
            None => ArrayKey::Long(self.end as i64),
        };
        self.end = self.end - 1;
        assert(self.remaining() =~= old(self).remaining().drop_last());
        Some((key, v))
    }

    /// One past the position of the last entry not yet yielded.
    pub closed spec fn end_count(&self) -> nat {
        self.end as nat
    }

    /// The number of entries the iterator has yet to yield.
    pub fn len(&self) -> (r: usize)
        ensures
            r == self.remaining().len(),
    {
        proof {
            use_type_invariant(self);
        }
        self.end - self.current
    }

    /// Consumes the iterator and returns the number of entries it had yet to
    /// yield.
    pub fn count(self) -> (r: usize)
        ensures
            r == self.remaining().len(),
    {
        proof {
            use_type_invariant(&self);
        }
        self.end - self.current
    }
}

/// Iterator over the values of a hashtable.
pub struct Values<'a>(Iter<'a>);

impl<'a> Values<'a> {
    /// The values the iterator has yet to yield, in order.
    pub closed spec fn remaining(&self) -> Seq<ZvalModel> {
        self.0.remaining().map_values(|e: (HashKey, ZvalModel)| e.1)
    }

    /// The number of entries of the hashtable iterated over.
    pub closed spec fn table_len(&self) -> nat {
        self.0.table_len()
    }

    /// Creates an iterator over the values of the hashtable.
    pub fn new(ht: &'a ZendHashTable) -> (r: Values<'a>)
        ensures
            r.remaining() == ht@.entries.map_values(|e: (HashKey, ZvalModel)| e.1),
            r.table_len() == ht@.entries.len(),
    {
        Values(Iter::new(ht))
    }

    /// Returns the next value.
    pub fn next(&mut self) -> (r: Option<&'a Zval>)
        ensures
            final(self).table_len() == old(self).table_len(),
            old(self).remaining().len() == 0 ==> r is None && final(self).remaining() == old(
                self,
            ).remaining(),
            old(self).remaining().len() > 0 ==> (r matches Some(v) && v@ == old(self).remaining()[0])
                && final(self).remaining() == old(self).remaining().drop_first(),
    {
        let r = match self.0.next_zval() {
            Some((_, v)) => Some(v),
            None => None,
        };
        assert(self.remaining() =~= old(self).remaining().drop_first() || old(self).remaining().len() == 0);
        r
    }

    /// Returns the last value not yet yielded.
    pub fn next_back(&mut self) -> (r: Option<&'a Zval>)
        ensures
            final(self).table_len() == old(self).table_len(),
            old(self).remaining().len() == 0 ==> r is None && final(self).remaining() == old(
                self,
            ).remaining(),
            old(self).remaining().len() > 0 ==> (r matches Some(v) && v@ == old(self).remaining().last())
                && final(self).remaining() == old(self).remaining().drop_last(),
    {
        let r = match self.0.next_back() {
            Some((_, v)) => Some(v),
            None => None,
        };
        assert(self.remaining() =~= old(self).remaining().drop_last() || old(self).remaining().len() == 0);
        r
    }

    /// The number of values the iterator has yet to yield.
    pub fn len(&self) -> (r: usize)
        ensures
            r == self.remaining().len(),
    {
        self.0.len()
    }
}

impl ZendHashTable {
    /// Returns an iterator over the keys and values of the hashtable.
    pub fn iter(&self) -> (r: Iter<'_>)
        ensures
            r.remaining() == self@.entries,
            r.table_len() == self@.entries.len(),
    {
        Iter::new(self)
    }

    /// Returns an iterator over the values of the hashtable.
    pub fn values(&self) -> (r: Values<'_>)
        ensures
            r.remaining() == self@.entries.map_values(|e: (HashKey, ZvalModel)| e.1),
            r.table_len() == self@.entries.len(),
    {
        Values::new(self)
    }
}

} // verus!
