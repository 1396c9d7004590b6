//! The engine's doubly linked lists, and iteration over them.

use vstd::prelude::*;

verus! {

/// A linked list of the engine, holding its elements in order.
#[derive(Debug)]
pub struct ZendLinkedList<T> {
    elements: Vec<T>,
}

impl<T> View for ZendLinkedList<T> {
    type V = Seq<T>;

    closed spec fn view(&self) -> Seq<T> {
        self.elements@
    }
}

impl<T> ZendLinkedList<T> {
    /// Creates a list holding the given elements, in order.
    pub fn new(elements: Vec<T>) -> (r: ZendLinkedList<T>)
        ensures
            r@ == elements@,
    {
        ZendLinkedList { elements }
    }

    /// Iterates over the elements of the list, from its head.
    pub fn iter(&self) -> (r: ZendLinkedListIterator<'_, T>)
        ensures
            r.remaining() == self@,
    {
        ZendLinkedListIterator { list: self, position: 0 }
    }
}

/// Iterator over the elements of a linked list.
pub struct ZendLinkedListIterator<'a, T> {
    list: &'a ZendLinkedList<T>,
    position: usize,
}

impl<'a, T> ZendLinkedListIterator<'a, T> {
    /// The elements the iterator has yet to return, in order.
    pub closed spec fn remaining(&self) -> Seq<T> {
        self.list.elements@.subrange(self.position as int, self.list.elements@.len() as int)
    }

    /// Well-formedness: the position lies within the list.
    #[verifier::type_invariant]
    spec fn wf(&self) -> bool {
        self.position <= self.list.elements@.len()
    }

    /// Returns the next element, or [`None`] at the end of the list.
    pub fn next(&mut self) -> (r: Option<&'a T>)
        ensures
            old(self).remaining().len() == 0 ==> r is None && final(self).remaining() == old(
                self,
            ).remaining(),
            old(self).remaining().len() > 0 ==> r == Some(&old(self).remaining()[0])
                && final(self).remaining() == old(self).remaining().drop_first(),
    {
        proof {
            use_type_invariant(&*self);
        }
        if self.position < self.list.elements.len() {
            let e = &self.list.elements[self.position];
            self.position = self.position + 1;
            assert(self.remaining() =~= old(self).remaining().drop_first());
            Some(e)
        } else {
            None
        }
    }
}

} // verus!
