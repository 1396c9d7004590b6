//! Reference counting of the engine's values.

use vstd::prelude::*;

use crate::object::{ObjectModel, ZendObject};
use crate::string::ZendStr;

verus! {

/// Values of the engine that carry a reference count.
pub trait PhpRc: Sized {
    /// The reference count.
    spec fn rc(&self) -> u32;

    /// Whether two values are equal but for their reference counts.
    spec fn same_but_count(&self, other: &Self) -> bool;

    /// Returns the reference count.
    fn get_count(&self) -> (r: u32)
        ensures
            r == self.rc(),
    ;

    /// Increments the reference count.
    fn inc_count(&mut self)
        requires
            old(self).rc() < u32::MAX,
        ensures
            final(self).rc() == old(self).rc() + 1,
            final(self).same_but_count(old(self)),
    ;

    /// Decrements the reference count.
    fn dec_count(&mut self)
        requires
            old(self).rc() > 0,
        ensures
            final(self).rc() == old(self).rc() - 1,
            final(self).same_but_count(old(self)),
    ;
}

impl PhpRc for ZendObject {
    open spec fn rc(&self) -> u32 {
        self@.refcount
    }

    open spec fn same_but_count(&self, other: &Self) -> bool {
        self@ == (ObjectModel { refcount: self@.refcount, ..other@ })
    }

    fn get_count(&self) -> (r: u32) {
        ZendObject::get_count(self)
    }

    fn inc_count(&mut self) {
        ZendObject::inc_count(self)
    }

    fn dec_count(&mut self) {
        ZendObject::dec_count(self)
    }
}

impl PhpRc for ZendStr {
    open spec fn rc(&self) -> u32 {
        self.count()
    }

    open spec fn same_but_count(&self, other: &Self) -> bool {
        self@ == other@ && self.is_persistent() == other.is_persistent() && self.is_interned()
            == other.is_interned()
    }

    fn get_count(&self) -> (r: u32) {
        ZendStr::get_count(self)
    }

    fn inc_count(&mut self) {
        ZendStr::inc_count(self)
    }

    fn dec_count(&mut self) {
        ZendStr::dec_count(self)
    }
}

} // verus!
