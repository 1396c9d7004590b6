//! Conversions between vectors and PHP arrays: a vector becomes a list, and
//! the values of an array become a vector.

use vstd::prelude::*;

use crate::array::{empty_model, model_push, ArrayModel, HashKey, ZendHashTable};
use crate::convert::{FromZval, IntoZval};
use crate::error::Error;
use crate::flags::DataType;
use crate::zval::{array_zval_model, model_array, model_type, Zval, ZvalModel};

verus! {

/// The table after pushing the zvals of the values in order, or the error of
/// the first value that does not become a zval.
pub open spec fn push_all<T: IntoZval>(m: ArrayModel, s: Seq<T>) -> Result<ArrayModel, Error>
    decreases s.len(),
{
    if s.len() == 0 {
        Ok(m)
    } else {
        match s[0].zval_of(false) {
            None => Err(s[0].conversion_error()),
            Some(z) => push_all(model_push(m, z), s.drop_first()),
        }
    }
}

/// The table a vector becomes, or the error: integer overflow when it has
/// more values than a table can count, else the error of the first value
/// that does not become a zval.
pub open spec fn vec_table<T: IntoZval>(s: Seq<T>) -> Result<ArrayModel, Error> {
    if s.len() > u32::MAX {
        Err(Error::IntegerOverflow)
    } else {
        push_all(empty_model(), s)
    }
}

/// The values read from the values of a table, in order, or the type of the
/// first value that does not read as a `T`.
pub open spec fn read_all<T: FromZval>(entries: Seq<(HashKey, ZvalModel)>) -> Result<Seq<ZvalModel>, DataType>
    decreases entries.len(),
{
    if entries.len() == 0 {
        Ok(Seq::empty())
    } else if !T::accepts(entries[0].1) {
        Err(model_type(entries[0].1))
    } else {
        match read_all::<T>(entries.drop_first()) {
            Ok(rest) => Ok(seq![entries[0].1] + rest),
            Err(t) => Err(t),
        }
    }
}

impl ZendHashTable {
    /// Builds a list from a vector: each value is pushed in order. Fails with
    /// [`Error::IntegerOverflow`] when the vector is longer than a table can
    /// count, or with the conversion error of the first value that does not
    /// become a zval.
    #[verifier::loop_isolation(false)]
    pub fn try_from_vec<T: IntoZval>(value: Vec<T>) -> (r: Result<ZendHashTable, Error>)
        ensures
            r is Ok <==> vec_table(value@) is Ok,
            r matches Ok(h) ==> vec_table(value@) == Ok::<ArrayModel, Error>(h@),
            r matches Err(e) ==> vec_table(value@) == Err::<ArrayModel, Error>(e),
    {
        if value.len() > 4294967295usize {
            return Err(Error::IntegerOverflow);
        }
        let mut ht = ZendHashTable::with_capacity(value.len() as u32);
        let ghost all = value@;
        let mut rest = value;
        while rest.len() > 0
            invariant
                push_all(empty_model(), all) == push_all(ht@, rest@),
                all.len() <= u32::MAX,
            decreases rest@.len(),
        {
            let ghost old_rest = rest@;
            let v = rest.remove(0);
            assert(old_rest[0] == v);
            assert(old_rest.drop_first() =~= rest@);
            match ht.push(v) {
                Ok(()) => {},
                Err(e) => {
                    return Err(e);
                },
            }
        }
        Ok(ht)
    }

    /// Reads the values of the table, in order, as `T`s. Fails with
    /// [`Error::ZvalConversion`] of the type of the first value that does not
    /// read as a `T`.
    pub fn try_into_vec<T: FromZval>(&self) -> (r: Result<Vec<T>, Error>)
        ensures
            r is Ok <==> read_all::<T>(self@.entries) is Ok,
            r matches Ok(v) ==> v@.len() == self@.entries.len() && forall|i: int|
                0 <= i < v@.len() ==> T::read_as(self@.entries[i].1, #[trigger] v@[i]),
            r matches Err(e) ==> read_all::<T>(self@.entries) matches Err(t) && e
                == Error::ZvalConversion(t),
    {
        let mut out: Vec<T> = Vec::new();
        let mut i: usize = 0;
        while i < self.len()
            invariant
                i <= self@.entries.len(),
                out@.len() == i,
                forall|j: int| 0 <= j < i ==> T::read_as(self@.entries[j].1, #[trigger] out@[j]),
                forall|j: int| 0 <= j < i ==> T::accepts(#[trigger] self@.entries[j].1),
            decreases self@.entries.len() - i,
        {
            let (_, zv) = self.entry_at(i);
            match T::from_zval(zv) {
                Some(v) => {
                    out.push(v);
                },
                None => {
                    proof {
                        lemma_read_all_first_failure::<T>(self@.entries, i as int);
                    }
                    return Err(Error::ZvalConversion(zv.get_type()));
                },
            }
            i = i + 1;
        }
        proof {
            lemma_read_all_ok::<T>(self@.entries);
        }
        Ok(out)
    }
}

/// When every value before `i` reads and the value at `i` does not, reading
/// fails with the type of the value at `i`.
proof fn lemma_read_all_first_failure<T: FromZval>(e: Seq<(HashKey, ZvalModel)>, i: int)
    requires
        0 <= i < e.len(),
        forall|j: int| 0 <= j < i ==> T::accepts(#[trigger] e[j].1),
        !T::accepts(e[i].1),
    ensures
        read_all::<T>(e) == Err::<Seq<ZvalModel>, DataType>(model_type(e[i].1)),
    decreases i,
{
    if i > 0 {
        let t = e.drop_first();
        assert forall|j: int| 0 <= j < i - 1 implies T::accepts(#[trigger] t[j].1) by {
            assert(t[j] == e[j + 1]);
        }
        assert(T::accepts(e[0].1));
        lemma_read_all_first_failure::<T>(t, i - 1);
    }
}

/// When every value reads, reading succeeds.
proof fn lemma_read_all_ok<T: FromZval>(e: Seq<(HashKey, ZvalModel)>)
    requires
        forall|j: int| 0 <= j < e.len() ==> T::accepts(#[trigger] e[j].1),
    ensures
        read_all::<T>(e) is Ok,
    decreases e.len(),
{
    if e.len() > 0 {
        let t = e.drop_first();
        assert forall|j: int| 0 <= j < t.len() implies T::accepts(#[trigger] t[j].1) by {
            assert(t[j] == e[j + 1]);
        }
        assert(T::accepts(e[0].1));
        lemma_read_all_ok::<T>(t);
    }
}

impl<T: IntoZval> IntoZval for Vec<T> {
    open spec fn zval_of(&self, persistent: bool) -> Option<ZvalModel> {
        match vec_table(self@) {
            Ok(m) => Some(array_zval_model(m)),
            Err(_) => None,
        }
    }

    open spec fn conversion_error(&self) -> Error {
        match vec_table(self@) {
            Err(e) => e,
            Ok(_) => Error::IntegerOverflow,
        }
    }

    open spec fn type_of() -> DataType {
        DataType::Array
    }

    fn php_type() -> (r: DataType) {
        DataType::Array
    }

    fn set_zval(self, zv: &mut Zval, persistent: bool) -> (r: Result<(), Error>) {
        match ZendHashTable::try_from_vec(self) {
            Ok(h) => {
                zv.set_hashtable(h);
                Ok(())
            },
            Err(e) => Err(e),
        }
    }
}

impl<T: FromZval> FromZval for Vec<T> {
    open spec fn accepts(z: ZvalModel) -> bool {
        match model_array(z) {
            Some(a) => read_all::<T>(a.entries) is Ok,
            None => false,
        }
    }

    open spec fn read_as(z: ZvalModel, v: Vec<T>) -> bool {
        match model_array(z) {
            Some(a) => v@.len() == a.entries.len() && forall|i: int|
                0 <= i < v@.len() ==> T::read_as(a.entries[i].1, #[trigger] v@[i]),
            None => false,
        }
    }

    open spec fn type_of() -> DataType {
        DataType::Array
    }

    fn php_type() -> (r: DataType) {
        DataType::Array
    }

    fn from_zval(zv: &Zval) -> (r: Option<Vec<T>>) {
        match zv.array() {
            Some(a) => match a.try_into_vec() {
                Ok(v) => Some(v),
                Err(_) => None,
            },
            None => None,
        }
    }
}

impl Zval {
    /// Sets the value of the zval to the list of the values; fails as
    /// building the list fails, leaving the zval unchanged.
    pub fn set_array<T: IntoZval>(&mut self, val: Vec<T>) -> (r: Result<(), Error>)
        ensures
            r is Ok <==> vec_table(val@) is Ok,
            r is Ok ==> vec_table(val@) == Ok::<ArrayModel, Error>(
                crate::zval::model_array(final(self)@).unwrap(),
            ) && final(self)@ == array_zval_model(vec_table(val@)->Ok_0),
            r matches Err(e) ==> vec_table(val@) == Err::<ArrayModel, Error>(e) && final(self)@
                == old(self)@,
    {
        match ZendHashTable::try_from_vec(val) {
            Ok(h) => {
                self.set_hashtable(h);
                proof {
                    crate::flags::lemma_tag_types();
                }
                Ok(())
            },
            Err(e) => Err(e),
        }
    }
}

/// Whether the entries are the list of the values' zvals, the `i`-th under
/// key `i`.
pub open spec fn is_list_of<T: IntoZval>(entries: Seq<(HashKey, ZvalModel)>, s: Seq<T>) -> bool {
    &&& entries.len() == s.len()
    &&& forall|i: int|
        0 <= i < s.len() ==> #[trigger] entries[i] == (HashKey::Index(i as u64), s[i].zval_of(false).unwrap())
}

/// Pushing the values onto a list of `k` entries keyed `0..k` extends the
/// list.
proof fn lemma_push_all_list<T: IntoZval>(m: ArrayModel, done: Seq<T>, s: Seq<T>)
    requires
        is_list_of(m.entries, done),
        m.next_free == (if done.len() == 0 { i64::MIN } else { done.len() as i64 }),
        done.len() + s.len() <= u32::MAX,
        forall|i: int| 0 <= i < s.len() ==> (#[trigger] s[i]).zval_of(false) is Some,
    ensures
        push_all(m, s) matches Ok(r) && is_list_of(r.entries, done + s),
    decreases s.len(),
{
    if s.len() == 0 {
        assert(done + s =~= done);
    } else {
        let k = done.len();
        let z = s[0].zval_of(false).unwrap();
        let key = HashKey::Index(k as u64);
        assert(crate::array::push_key(m.next_free) == k as u64);
        assert(!crate::array::has_key(m.entries, key)) by {
            if crate::array::has_key(m.entries, key) {
                let w = choose|j: int| 0 <= j < m.entries.len() && #[trigger] m.entries[j].0 == key;
                assert(m.entries[w] == (HashKey::Index(w as u64), done[w].zval_of(false).unwrap()));
            }
        }
        let m2 = model_push(m, z);
        assert(m2.entries == m.entries.push((key, z)));
        let done2 = done.push(s[0]);
        assert(is_list_of(m2.entries, done2)) by {
            assert forall|i: int| 0 <= i < done2.len() implies #[trigger] m2.entries[i] == (
                HashKey::Index(i as u64),
                done2[i].zval_of(false).unwrap(),
            ) by {
                if i < k {
                    assert(m2.entries[i] == m.entries[i]);
                }
            }
        }
        assert(m2.next_free == (k + 1) as i64);
        let rest = s.drop_first();
        assert forall|i: int| 0 <= i < rest.len() implies (#[trigger] rest[i]).zval_of(false) is Some by {
            assert(rest[i] == s[i + 1]);
        }
        lemma_push_all_list(m2, done2, rest);
        assert(done2 + rest =~= done + s);
    }
}

/// A vector whose values all become zvals becomes a list: its `i`-th value
/// is stored under key `i`, in order.
pub proof fn law_vec_becomes_list<T: IntoZval>(s: Seq<T>)
    requires
        s.len() <= u32::MAX,
        forall|i: int| 0 <= i < s.len() ==> (#[trigger] s[i]).zval_of(false) is Some,
    ensures
        vec_table(s) matches Ok(m) && is_list_of(m.entries, s),
{
    let empty = Seq::<T>::empty();
    assert(is_list_of(empty_model().entries, empty));
    lemma_push_all_list(empty_model(), empty, s);
    assert(empty + s =~= s);
}

} // verus!
