//! PHP arrays: ordered hashtables keyed by integers or byte strings.

use vstd::prelude::*;
use vstd::string::*;

use crate::convert::IntoZval;
use crate::error::Error;
use crate::string::{contains_nul, has_nul, ZendStr};
use crate::zval::{zval_model, Zval, ZvalModel};

verus! {

/// The key of a bucket.
#[derive(Debug)]
pub enum BucketKey {
    /// An integer key.
    Index(u64),
    /// A string key.
    Name(ZendStr),
}

/// A bucket of a hashtable: a key and its value.
#[derive(Debug)]
pub struct Bucket {
    pub key: BucketKey,
    pub val: Zval,
}

/// A PHP hashtable.
///
/// Buckets are kept in insertion order. `next_free` is the engine's
/// `nNextFreeElement`: `i64::MIN` until an integer key is used, then one past
/// the largest integer key seen.
#[derive(Debug)]
pub struct ZendHashTable {
    pub data: Vec<Bucket>,
    pub next_free: i64,
}

/// Abstract key of a hashtable entry.
pub enum HashKey {
    Index(u64),
    Name(Seq<u8>),
}

/// Abstract hashtable: its entries in order, and the next free index.
pub struct ArrayModel {
    pub entries: Seq<(HashKey, ZvalModel)>,
    pub next_free: i64,
}

/// The abstract key of a bucket key.
pub open spec fn key_model(k: &BucketKey) -> HashKey {
    match k {
        BucketKey::Index(h) => HashKey::Index(*h),
        BucketKey::Name(s) => HashKey::Name(s@),
    }
}

/// The abstract hashtable of a hashtable.
pub open spec fn array_model(h: &ZendHashTable) -> ArrayModel
    decreases h,
{
    ArrayModel {
        entries: Seq::new(
            h.data@.len(),
            |i: int|
                if 0 <= i < h.data@.len() {
                    (key_model(&h.data@[i].key), zval_model(&h.data@[i].val))
                } else {
                    vstd::pervasive::arbitrary()
                },
        ),
        next_free: h.next_free,
    }
}

impl View for ZendHashTable {
    type V = ArrayModel;

    open spec fn view(&self) -> ArrayModel {
        array_model(self)
    }
}

/// Whether some entry has the key.
pub open spec fn has_key(s: Seq<(HashKey, ZvalModel)>, k: HashKey) -> bool {
    exists|i: int| 0 <= i < s.len() && #[trigger] s[i].0 == k
}

/// Whether `i` is the first entry with the key.
pub open spec fn is_first(s: Seq<(HashKey, ZvalModel)>, k: HashKey, i: int) -> bool {
    &&& 0 <= i < s.len()
    &&& s[i].0 == k
    &&& forall|j: int| 0 <= j < i ==> #[trigger] s[j].0 != k
}

/// The first entry with the key.
pub open spec fn first_index(s: Seq<(HashKey, ZvalModel)>, k: HashKey) -> int {
    choose|i: int| is_first(s, k, i)
}

/// The value stored under the key.
pub open spec fn lookup(s: Seq<(HashKey, ZvalModel)>, k: HashKey) -> Option<ZvalModel> {
    if has_key(s, k) {
        Some(s[first_index(s, k)].1)
    } else {
        None
    }
}

/// No key occurs twice.
pub open spec fn keys_unique(s: Seq<(HashKey, ZvalModel)>) -> bool {
    forall|i: int, j: int| 0 <= i < j < s.len() ==> #[trigger] s[i].0 != #[trigger] s[j].0
}

/// An integer key read as the engine's signed `zend_long`.
pub open spec fn signed(h: u64) -> int {
    if h < 0x8000_0000_0000_0000 {
        h as int
    } else {
        h - 0x1_0000_0000_0000_0000
    }
}

/// The next free index after storing integer key `h`.
pub open spec fn bump(nf: i64, h: u64) -> i64 {
    if signed(h) >= nf {
        if signed(h) < i64::MAX {
            (signed(h) + 1) as i64
        } else {
            i64::MAX
        }
    } else {
        nf
    }
}

/// The key a push uses.
pub open spec fn push_key(nf: i64) -> u64 {
    if nf == i64::MIN {
        0
    } else if nf >= 0 {
        nf as u64
    } else {
        (nf + 0x1_0000_0000_0000_0000) as u64
    }
}

/// Stores `v` under `k`: the first entry with the key is updated in place,
/// else the pair is appended.
pub open spec fn model_insert(m: ArrayModel, k: HashKey, v: ZvalModel) -> ArrayModel {
    ArrayModel {
        entries: if has_key(m.entries, k) {
            m.entries.update(first_index(m.entries, k), (k, v))
        } else {
            m.entries.push((k, v))
        },
        next_free: match k {
            HashKey::Index(h) => bump(m.next_free, h),
            HashKey::Name(_) => m.next_free,
        },
    }
}

/// Appends `v` at the next free index, unless that index is taken.
pub open spec fn model_push(m: ArrayModel, v: ZvalModel) -> ArrayModel {
    let h = push_key(m.next_free);
    if has_key(m.entries, HashKey::Index(h)) {
        m
    } else {
        ArrayModel {
            entries: m.entries.push((HashKey::Index(h), v)),
            next_free: bump(m.next_free, h),
        }
    }
}

/// Removes the first entry with the key.
pub open spec fn model_remove(m: ArrayModel, k: HashKey) -> ArrayModel {
    if has_key(m.entries, k) {
        ArrayModel { entries: m.entries.remove(first_index(m.entries, k)), next_free: m.next_free }
    } else {
        m
    }
}

/// The empty hashtable.
pub open spec fn empty_model() -> ArrayModel {
    ArrayModel { entries: Seq::empty(), next_free: i64::MIN }
}

/// Every key is an integer.
pub open spec fn model_numerical_keys(s: Seq<(HashKey, ZvalModel)>) -> bool {
    forall|i: int| 0 <= i < s.len() ==> #[trigger] s[i].0 is Index
}

/// Every key is the integer of its position.
pub open spec fn model_sequential_keys(s: Seq<(HashKey, ZvalModel)>) -> bool {
    forall|i: int| 0 <= i < s.len() ==> #[trigger] s[i].0 == HashKey::Index(i as u64)
}

/// A found index is the first one holding the key.
proof fn lemma_first_unique(s: Seq<(HashKey, ZvalModel)>, k: HashKey, i: int)
    requires
        is_first(s, k, i),
    ensures
        has_key(s, k),
        first_index(s, k) == i,
        lookup(s, k) == Some(s[i].1),
{
    assert(s[i].0 == k);
    let c = first_index(s, k);
    assert(is_first(s, k, c));
    if c < i {
        assert(s[c].0 != k);
    } else if c > i {
        assert(s[i].0 != k);
    }
}

impl ZendHashTable {
    /// The hashtable's invariant: no key occurs twice. Every constructor
    /// establishes it and every method keeps it.
    pub open spec fn wf(&self) -> bool {
        keys_unique(self@.entries)
    }

    /// Creates a new, empty hashtable.
    pub fn new() -> (r: ZendHashTable)
        ensures
            r@ == empty_model(),
            r.wf(),
    {
        ZendHashTable::with_capacity(8)
    }

    /// Creates a new, empty hashtable with room for `size` elements.
    pub fn with_capacity(size: u32) -> (r: ZendHashTable)
        ensures
            r@ == empty_model(),
            r.wf(),
    {
        let r = ZendHashTable { data: Vec::new(), next_free: i64::MIN };
        assert(r@.entries =~= Seq::<(HashKey, ZvalModel)>::empty());
        r
    }

    /// Makes an identical copy of the hashtable and the values it holds.
    pub fn duplicate(&self) -> (r: ZendHashTable)
        ensures
            r@ == self@,
            self.wf() ==> r.wf(),
        decreases self,
    {
        let mut v: Vec<Bucket> = Vec::new();
        let mut i: usize = 0;
        while i < self.data.len()
            invariant
                i <= self.data@.len(),
                v@.len() == i,
                forall|j: int|
                    0 <= j < i ==> key_model(&#[trigger] v@[j].key) == key_model(&self.data@[j].key)
                        && zval_model(&v@[j].val) == zval_model(&self.data@[j].val),
            decreases self.data@.len() - i,
        {
            let b = &self.data[i];
            let key = match &b.key {
                BucketKey::Index(h) => BucketKey::Index(*h),
                BucketKey::Name(s) => BucketKey::Name(s.duplicate()),
            };
            let val = b.val.duplicate();
            v.push(Bucket { key, val });
            i = i + 1;
        }
        let r = ZendHashTable { data: v, next_free: self.next_free };
        assert(r@.entries =~= self@.entries);
        r
    }

    /// An identical copy of the hashtable (`zend_array_dup`).
    pub fn to_owned(&self) -> (r: ZendHashTable)
        ensures
            r@ == self@,
    {
        self.duplicate()
    }

    /// Returns the current number of elements in the array.
    pub fn len(&self) -> (r: usize)
        ensures
            r == self@.entries.len(),
    {
        self.data.len()
    }

    /// Returns whether the hash table is empty.
    pub fn is_empty(&self) -> (r: bool)
        ensures
            r == (self@.entries.len() == 0),
    {
        self.len() == 0
    }

    /// Clears the hash table, removing all values.
    pub fn clear(&mut self)
        ensures
            final(self)@ == empty_model(),
            final(self).wf(),
    {
        self.data = Vec::new();
        self.next_free = i64::MIN;
        assert(self@.entries =~= Seq::<(HashKey, ZvalModel)>::empty());
    }

    /// Finds the first bucket with the integer key.
    fn find_index(&self, key: u64) -> (r: Option<usize>)
        ensures
            r matches Some(i) ==> is_first(self@.entries, HashKey::Index(key), i as int),
            r is None ==> !has_key(self@.entries, HashKey::Index(key)),
    {
        let mut i: usize = 0;
        while i < self.data.len()
            invariant
                i <= self.data@.len(),
                forall|j: int| 0 <= j < i ==> #[trigger] self@.entries[j].0 != HashKey::Index(key),
            decreases self.data@.len() - i,
        {
            match &self.data[i].key {
                BucketKey::Index(h) => {
                    if *h == key {
                        return Some(i);
                    }
                },
                BucketKey::Name(_) => {},
            }
            i = i + 1;
        }
        None
    }

    /// Finds the first bucket with the string key.
    fn find_name(&self, key: &[u8]) -> (r: Option<usize>)
        ensures
            r matches Some(i) ==> is_first(self@.entries, HashKey::Name(key@), i as int),
            r is None ==> !has_key(self@.entries, HashKey::Name(key@)),
    {
        let mut i: usize = 0;
        while i < self.data.len()
            invariant
                i <= self.data@.len(),
                forall|j: int| 0 <= j < i ==> #[trigger] self@.entries[j].0 != HashKey::Name(key@),
            decreases self.data@.len() - i,
        {
            match &self.data[i].key {
                BucketKey::Index(_) => {},
                BucketKey::Name(s) => {
                    if s.eq_bytes(key) {
                        return Some(i);
                    }
                },
            }
            i = i + 1;
        }
        None
    }

    /// Retrieves the value stored under a string key.
    pub fn get(&self, key: &str) -> (r: Option<&Zval>)
        ensures
            r is Some <==> lookup(self@.entries, HashKey::Name(key.spec_bytes())) is Some,
            r matches Some(z) ==> lookup(self@.entries, HashKey::Name(key.spec_bytes())) == Some(
                z@,
            ),
    {
        match self.find_name(key.as_bytes()) {
            Some(i) => {
                proof {
                    lemma_first_unique(self@.entries, HashKey::Name(key.spec_bytes()), i as int);
                }
                Some(&self.data[i].val)
            },
            None => None,
        }
    }

    /// Retrieves the value stored under an integer key.
    pub fn get_index(&self, key: u64) -> (r: Option<&Zval>)
        ensures
            r is Some <==> lookup(self@.entries, HashKey::Index(key)) is Some,
            r matches Some(z) ==> lookup(self@.entries, HashKey::Index(key)) == Some(z@),
    {
        match self.find_index(key) {
            Some(i) => {
                proof {
                    lemma_first_unique(self@.entries, HashKey::Index(key), i as int);
                }
                Some(&self.data[i].val)
            },
            None => None,
        }
    }

    /// Removes the bucket at position `i`.
    fn remove_at(&mut self, i: usize)
        requires
            i < old(self).data@.len(),
        ensures
            final(self)@ == (ArrayModel {
                entries: old(self)@.entries.remove(i as int),
                next_free: old(self)@.next_free,
            }),
    {
        let ghost before = self@.entries;
        self.data.remove(i);
        assert(self@.entries =~= before.remove(i as int));
    }

    /// Removes the value stored under a string key; [`None`] if there was
    /// none.
    pub fn remove(&mut self, key: &str) -> (r: Option<()>)
        ensures
            r is Some <==> has_key(old(self)@.entries, HashKey::Name(key.spec_bytes())),
            final(self)@ == model_remove(old(self)@, HashKey::Name(key.spec_bytes())),
            old(self).wf() ==> final(self).wf(),
    {
        proof {
            if self.wf() {
                law_remove_keeps_keys_unique(self@, HashKey::Name(key.spec_bytes()));
            }
        }
        match self.find_name(key.as_bytes()) {
            Some(i) => {
                proof {
                    lemma_first_unique(self@.entries, HashKey::Name(key.spec_bytes()), i as int);
                }
                self.remove_at(i);
                Some(())
            },
            None => None,
        }
    }

    /// Removes the value stored under an integer key; [`None`] if there was
    /// none.
    pub fn remove_index(&mut self, key: u64) -> (r: Option<()>)
        ensures
            r is Some <==> has_key(old(self)@.entries, HashKey::Index(key)),
            final(self)@ == model_remove(old(self)@, HashKey::Index(key)),
            old(self).wf() ==> final(self).wf(),
    {
        proof {
            if self.wf() {
                law_remove_keeps_keys_unique(self@, HashKey::Index(key));
            }
        }
        match self.find_index(key) {
            Some(i) => {
                proof {
                    lemma_first_unique(self@.entries, HashKey::Index(key), i as int);
                }
                self.remove_at(i);
                Some(())
            },
            None => None,
        }
    }

    /// Replaces the value of the bucket at position `i`.
    fn set_at(&mut self, i: usize, val: Zval)
        requires
            i < old(self).data@.len(),
        ensures
            final(self)@ == (ArrayModel {
                entries: old(self)@.entries.update(i as int, (old(self)@.entries[i as int].0, val@)),
                next_free: old(self)@.next_free,
            }),
    {
        let ghost before = self@.entries;
        let key = match &self.data[i].key {
            BucketKey::Index(h) => BucketKey::Index(*h),
            BucketKey::Name(s) => BucketKey::Name(s.duplicate()),
        };
        self.data.set(i, Bucket { key, val });
        assert(self@.entries =~= before.update(i as int, (before[i as int].0, val@)));
    }

    /// Appends a bucket.
    fn append(&mut self, key: BucketKey, val: Zval)
        ensures
            final(self)@ == (ArrayModel {
                entries: old(self)@.entries.push((key_model(&key), val@)),
                next_free: old(self)@.next_free,
            }),
    {
        let ghost before = self@.entries;
        let ghost k = key_model(&key);
        let ghost v = val@;
        self.data.push(Bucket { key, val });
        assert(self@.entries =~= before.push((k, v)));
    }

    /// The next free index after storing integer key `h`.
    fn bump_next_free(&mut self, h: u64)
        ensures
            final(self)@ == (ArrayModel { next_free: bump(old(self)@.next_free, h), ..old(self)@ }),
    {
        let ghost before = self@.entries;
        let hi: i64 = if h < 0x8000_0000_0000_0000u64 {
            h as i64
        } else {
            (h - 0x8000_0000_0000_0000u64) as i64 + i64::MIN
        };
        if hi >= self.next_free {
            self.next_free = if hi < i64::MAX {
                hi + 1
            } else {
                i64::MAX
            };
        }
        assert(self@.entries =~= before);
    }

    /// Stores a zval under a string key, updating the key's value if present.
    pub fn insert_zval(&mut self, key: &str, val: Zval)
        ensures
            final(self)@ == model_insert(old(self)@, HashKey::Name(key.spec_bytes()), val@),
            old(self).wf() ==> final(self).wf(),
    {
        proof {
            if self.wf() {
                law_insert_keeps_keys_unique(self@, HashKey::Name(key.spec_bytes()), val@);
            }
        }
        match self.find_name(key.as_bytes()) {
            Some(i) => {
                proof {
                    lemma_first_unique(self@.entries, HashKey::Name(key.spec_bytes()), i as int);
                }
                self.set_at(i, val);
            },
            None => {
                self.append(BucketKey::Name(ZendStr::from_str(key, false)), val);
            },
        }
    }

    /// Stores a zval under an integer key, updating the key's value if
    /// present.
    pub fn insert_zval_at_index(&mut self, key: u64, val: Zval)
        ensures
            final(self)@ == model_insert(old(self)@, HashKey::Index(key), val@),
            old(self).wf() ==> final(self).wf(),
    {
        proof {
            if self.wf() {
                law_insert_keeps_keys_unique(self@, HashKey::Index(key), val@);
            }
        }
        match self.find_index(key) {
            Some(i) => {
                proof {
                    lemma_first_unique(self@.entries, HashKey::Index(key), i as int);
                }
                self.set_at(i, val);
            },
            None => {
                self.append(BucketKey::Index(key), val);
            },
        }
        self.bump_next_free(key);
    }

    /// Appends a zval at the next free index; nothing happens if that index
    /// is already taken.
    pub fn push_zval(&mut self, val: Zval)
        ensures
            final(self)@ == model_push(old(self)@, val@),
            old(self).wf() ==> final(self).wf(),
    {
        proof {
            if self.wf() {
                law_push_appends(self@, val@);
            }
        }
        let h: u64 = if self.next_free == i64::MIN {
            0
        } else if self.next_free >= 0 {
            self.next_free as u64
        } else {
            (self.next_free - i64::MIN) as u64 + 0x8000_0000_0000_0000u64
        };
        match self.find_index(h) {
            Some(_) => {},
            None => {
                self.append(BucketKey::Index(h), val);
                self.bump_next_free(h);
            },
        }
    }

    /// Inserts an item under a string key, or updates it if the key already
    /// exists. Fails if the key holds a NUL byte or the value cannot become a
    /// zval.
    pub fn insert<V: IntoZval>(&mut self, key: &str, val: V) -> (r: Result<(), Error>)
        ensures
            r is Ok <==> (val.zval_of(false) is Some && !has_nul(key.spec_bytes())),
            r is Ok ==> final(self)@ == model_insert(
                old(self)@,
                HashKey::Name(key.spec_bytes()),
                val.zval_of(false).unwrap(),
            ),
            r is Err ==> final(self)@ == old(self)@,
            r matches Err(e) ==> (if val.zval_of(false) is None {
                e == val.conversion_error()
            } else {
                e == Error::InvalidCString
            }),
            old(self).wf() ==> final(self).wf(),
    {
        let zv = match val.into_zval(false) {
            Ok(z) => z,
            Err(e) => {
                return Err(e);
            },
        };
        if contains_nul(key.as_bytes()) {
            return Err(Error::InvalidCString);
        }
        self.insert_zval(key, zv);
        Ok(())
    }

    /// Inserts an item at an index, or updates it if the index already
    /// exists. Fails if the value cannot become a zval.
    pub fn insert_at_index<V: IntoZval>(&mut self, key: u64, val: V) -> (r: Result<(), Error>)
        ensures
            r is Ok <==> val.zval_of(false) is Some,
            r is Ok ==> final(self)@ == model_insert(
                old(self)@,
                HashKey::Index(key),
                val.zval_of(false).unwrap(),
            ),
            old(self).wf() ==> final(self).wf(),
            r is Err ==> final(self)@ == old(self)@,
            r matches Err(e) ==> e == val.conversion_error(),
    {
        let zv = match val.into_zval(false) {
            Ok(z) => z,
            Err(e) => {
                return Err(e);
            },
        };
        self.insert_zval_at_index(key, zv);
        Ok(())
    }

    /// Pushes an item onto the end of the hash table. Fails if the value
    /// cannot become a zval.
    pub fn push<V: IntoZval>(&mut self, val: V) -> (r: Result<(), Error>)
        ensures
            r is Ok <==> val.zval_of(false) is Some,
            r is Ok ==> final(self)@ == model_push(old(self)@, val.zval_of(false).unwrap()),
            old(self).wf() ==> final(self).wf(),
            r is Err ==> final(self)@ == old(self)@,
            r matches Err(e) ==> e == val.conversion_error(),
    {
        let zv = match val.into_zval(false) {
            Ok(z) => z,
            Err(e) => {
                return Err(e);
            },
        };
        self.push_zval(zv);
        Ok(())
    }

    /// Checks if the hashtable only contains numerical keys.
    pub fn has_numerical_keys(&self) -> (r: bool)
        ensures
            r == model_numerical_keys(self@.entries),
    {
        let mut i: usize = 0;
        while i < self.data.len()
            invariant
                i <= self.data@.len(),
                forall|j: int| 0 <= j < i ==> #[trigger] self@.entries[j].0 is Index,
            decreases self.data@.len() - i,
        {
            match &self.data[i].key {
                BucketKey::Index(_) => {},
                BucketKey::Name(_) => {
                    assert(!(self@.entries[i as int].0 is Index));
                    return false;
                },
            }
            i = i + 1;
        }
        true
    }

    /// Checks if the hashtable has numerical, sequential keys: 0, 1, 2, ...
    pub fn has_sequential_keys(&self) -> (r: bool)
        ensures
            r == model_sequential_keys(self@.entries),
    {
        let mut i: usize = 0;
        while i < self.data.len()
            invariant
                i <= self.data@.len(),
                forall|j: int|
                    0 <= j < i ==> #[trigger] self@.entries[j].0 == HashKey::Index(j as u64),
            decreases self.data@.len() - i,
        {
            match &self.data[i].key {
                BucketKey::Index(h) => {
                    if *h != i as u64 {
                        assert(self@.entries[i as int].0 != HashKey::Index(i as u64));
                        return false;
                    }
                },
                BucketKey::Name(_) => {
                    assert(self@.entries[i as int].0 != HashKey::Index(i as u64));
                    return false;
                },
            }
            i = i + 1;
        }
        true
    }

    /// Returns the key and value of the entry at position `i`.
    pub fn entry_at(&self, i: usize) -> (r: (&BucketKey, &Zval))
        requires
            i < self@.entries.len(),
        ensures
            key_model(r.0) == self@.entries[i as int].0,
            r.1@ == self@.entries[i as int].1,
    {
        (&self.data[i].key, &self.data[i].val)
    }
}

/// A key that occurs has a first occurrence.
proof fn lemma_first_exists(s: Seq<(HashKey, ZvalModel)>, k: HashKey)
    requires
        has_key(s, k),
    ensures
        is_first(s, k, first_index(s, k)),
    decreases s.len(),
{
    let init = s.drop_last();
    if has_key(init, k) {
        lemma_first_exists(init, k);
        let i = first_index(init, k);
        assert forall|j: int| 0 <= j < i implies #[trigger] s[j].0 != k by {
            assert(init[j] == s[j]);
        }
        assert(init[i] == s[i]);
        assert(is_first(s, k, i));
    } else {
        let last = s.len() - 1;
        assert forall|j: int| 0 <= j < last implies #[trigger] s[j].0 != k by {
            if s[j].0 == k {
                assert(init[j].0 == k);
            }
        }
        assert(s[last].0 == k) by {
            let w = choose|i: int| 0 <= i < s.len() && #[trigger] s[i].0 == k;
            if w < last {
                assert(init[w].0 == k);
            }
        }
        assert(is_first(s, k, last));
    }
}

/// Reading a key after storing a value under it gives the value back.
pub proof fn law_lookup_after_insert(m: ArrayModel, k: HashKey, v: ZvalModel)
    ensures
        lookup(model_insert(m, k, v).entries, k) == Some(v),
{
    let s = m.entries;
    let t = model_insert(m, k, v).entries;
    if has_key(s, k) {
        lemma_first_exists(s, k);
        let i = first_index(s, k);
        assert(is_first(t, k, i));
        lemma_first_unique(t, k, i);
    } else {
        let i = s.len() as int;
        assert forall|j: int| 0 <= j < i implies #[trigger] t[j].0 != k by {
            assert(t[j] == s[j]);
        }
        assert(is_first(t, k, i));
        lemma_first_unique(t, k, i);
    }
}

/// Storing a value under a key leaves what the other keys read unchanged.
pub proof fn law_lookup_other_after_insert(m: ArrayModel, k: HashKey, k2: HashKey, v: ZvalModel)
    requires
        k != k2,
    ensures
        lookup(model_insert(m, k, v).entries, k2) == lookup(m.entries, k2),
{
    let s = m.entries;
    let t = model_insert(m, k, v).entries;
    assert forall|j: int| 0 <= j < s.len() implies (#[trigger] t[j].0 == k2) == (s[j].0 == k2) by {
        if has_key(s, k) {
            lemma_first_exists(s, k);
        }
    }
    if has_key(s, k2) {
        lemma_first_exists(s, k2);
        let i = first_index(s, k2);
        if has_key(s, k) {
            lemma_first_exists(s, k);
        }
        assert(t[i] == s[i]);
        assert(is_first(t, k2, i));
        lemma_first_unique(t, k2, i);
    } else {
        assert(!has_key(t, k2)) by {
            if has_key(t, k2) {
                let w = choose|i: int| 0 <= i < t.len() && #[trigger] t[i].0 == k2;
                if has_key(s, k) {
                    lemma_first_exists(s, k);
                    let f = first_index(s, k);
                    if w == f {
                        assert(t[w].0 == k);
                    } else {
                        assert(t[w] == s[w]);
                    }
                } else if w < s.len() {
                    assert(t[w] == s[w]);
                } else {
                    assert(t[w].0 == k);
                }
            }
        }
    }
}

/// Once a key is removed from a table whose keys are unique, reading it
/// finds nothing.
pub proof fn law_lookup_after_remove(m: ArrayModel, k: HashKey)
    requires
        keys_unique(m.entries),
    ensures
        lookup(model_remove(m, k).entries, k) is None,
{
    let s = m.entries;
    if has_key(s, k) {
        lemma_first_exists(s, k);
        let i = first_index(s, k);
        let t = s.remove(i);
        assert(!has_key(t, k)) by {
            if has_key(t, k) {
                let w = choose|j: int| 0 <= j < t.len() && #[trigger] t[j].0 == k;
                if w < i {
                    assert(s[w].0 == k);
                } else {
                    assert(s[w + 1].0 == k);
                    assert(s[i].0 != s[w + 1].0);
                }
            }
        }
    }
}

/// Removing a key leaves what the other keys read unchanged.
pub proof fn law_lookup_other_after_remove(m: ArrayModel, k: HashKey, k2: HashKey)
    requires
        k != k2,
    ensures
        lookup(model_remove(m, k).entries, k2) == lookup(m.entries, k2),
{
    let s = m.entries;
    if has_key(s, k) {
        lemma_first_exists(s, k);
        let i = first_index(s, k);
        let t = s.remove(i);
        if has_key(s, k2) {
            lemma_first_exists(s, k2);
            let i2 = first_index(s, k2);
            if i2 < i {
                assert(t[i2] == s[i2]);
                assert(is_first(t, k2, i2));
                lemma_first_unique(t, k2, i2);
            } else {
                assert(i2 != i);
                assert(t[i2 - 1] == s[i2]);
                assert forall|j: int| 0 <= j < i2 - 1 implies #[trigger] t[j].0 != k2 by {
                    if j < i {
                        assert(t[j] == s[j]);
                    } else {
                        assert(t[j] == s[j + 1]);
                    }
                }
                assert(is_first(t, k2, i2 - 1));
                lemma_first_unique(t, k2, i2 - 1);
            }
        } else {
            assert(!has_key(t, k2)) by {
                if has_key(t, k2) {
                    let w = choose|j: int| 0 <= j < t.len() && #[trigger] t[j].0 == k2;
                    if w < i {
                        assert(s[w].0 == k2);
                    } else {
                        assert(s[w + 1].0 == k2);
                    }
                }
            }
        }
    }
}

/// Storing a value keeps the keys of a table unique.
pub proof fn law_insert_keeps_keys_unique(m: ArrayModel, k: HashKey, v: ZvalModel)
    requires
        keys_unique(m.entries),
    ensures
        keys_unique(model_insert(m, k, v).entries),
{
    let s = m.entries;
    let t = model_insert(m, k, v).entries;
    if has_key(s, k) {
        lemma_first_exists(s, k);
        let f = first_index(s, k);
        assert forall|i: int, j: int| 0 <= i < j < t.len() implies #[trigger] t[i].0 != #[trigger] t[j].0 by {
            if i == f {
                assert(s[j].0 != s[f].0);
            } else if j == f {
                assert(s[i].0 != s[f].0);
            } else {
                assert(s[i].0 != s[j].0);
            }
        }
    } else {
        assert forall|i: int, j: int| 0 <= i < j < t.len() implies #[trigger] t[i].0 != #[trigger] t[j].0 by {
            if j == s.len() {
                assert(t[i] == s[i]);
                assert(s[i].0 != k);
            } else {
                assert(s[i].0 != s[j].0);
            }
        }
    }
}

/// Removing a key keeps the keys of a table unique.
pub proof fn law_remove_keeps_keys_unique(m: ArrayModel, k: HashKey)
    requires
        keys_unique(m.entries),
    ensures
        keys_unique(model_remove(m, k).entries),
{
    let s = m.entries;
    if has_key(s, k) {
        lemma_first_exists(s, k);
        let f = first_index(s, k);
        let t = s.remove(f);
        assert forall|i: int, j: int| 0 <= i < j < t.len() implies #[trigger] t[i].0 != #[trigger] t[j].0 by {
            let a = if i < f { i } else { i + 1 };
            let b = if j < f { j } else { j + 1 };
            assert(t[i] == s[a]);
            assert(t[j] == s[b]);
            assert(s[a].0 != s[b].0);
        }
    }
}

/// Pushing a value stores it under the next free index, at the end of the
/// table, unless an entry already holds that index; the keys stay unique.
pub proof fn law_push_appends(m: ArrayModel, v: ZvalModel)
    requires
        keys_unique(m.entries),
    ensures
        ({
            let k = HashKey::Index(push_key(m.next_free));
            let p = model_push(m, v);
            &&& !has_key(m.entries, k) ==> p.entries == m.entries.push((k, v)) && lookup(p.entries, k)
                == Some(v)
            &&& has_key(m.entries, k) ==> p == m
            &&& keys_unique(p.entries)
        }),
{
    let k = HashKey::Index(push_key(m.next_free));
    if !has_key(m.entries, k) {
        law_lookup_after_insert(m, k, v);
        law_insert_keeps_keys_unique(m, k, v);
        assert(model_push(m, v).entries == model_insert(m, k, v).entries);
    }
}

} // verus!
