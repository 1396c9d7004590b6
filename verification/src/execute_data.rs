//! The record of a call the engine passes to a function implemented in
//! Rust.

use vstd::prelude::*;

use crate::args::ArgParser;
use crate::class::ClassEntry;
use crate::flags::{EXECUTE_DATA_SIZE, ZEND_MM_ALIGNMENT, ZVAL_SIZE};
use crate::object::ZendObject;
use crate::zval::{model_object, Zval, ZvalModel};

verus! {

/// Execute data passed when a function is called from PHP: the name of the
/// called function as the engine reports it (`name`, or `Class::name` for a
/// method), the `$this` zval and the values passed to the call.
#[derive(Debug)]
pub struct ExecuteData {
    pub function_name: String,
    pub this: Zval,
    pub args: Vec<Zval>,
}

/// Execute data passed when a function is called from PHP.
pub type ExecutionData = ExecuteData;

/// Abstract execute data.
pub struct ExecuteModel {
    pub function_name: Seq<char>,
    pub this: ZvalModel,
    pub args: Seq<ZvalModel>,
}

impl View for ExecuteData {
    type V = ExecuteModel;

    open spec fn view(&self) -> ExecuteModel {
        ExecuteModel {
            function_name: self.function_name@,
            this: self.this@,
            args: self.args@.map_values(|z: Zval| z@),
        }
    }
}

/// `ZEND_MM_ALIGNED_SIZE(size)`: the size rounded up to the alignment.
pub open spec fn spec_aligned_size(size: int) -> int {
    ((size + ZEND_MM_ALIGNMENT - 1) / ZEND_MM_ALIGNMENT as int) * ZEND_MM_ALIGNMENT
}

impl ExecuteData {
    /// Returns an argument parser loaded with the values of the call.
    pub fn parser(&self) -> (r: ArgParser<'_>)
        ensures
            r.args() == Seq::<crate::args::ArgModel>::empty(),
            r.min_num_args() is None,
            r.call_args() == self@.args,
    {
        ArgParser::new(self)
    }

    /// Returns an argument parser loaded with the values of the call, and
    /// `$this` when the call is a method call.
    pub fn parser_object(&self) -> (r: (ArgParser<'_>, Option<&ZendObject>))
        ensures
            r.0.args() == Seq::<crate::args::ArgModel>::empty(),
            r.0.min_num_args() is None,
            r.0.call_args() == self@.args,
            r.1 is Some <==> model_object(self@.this) is Some,
            r.1 matches Some(o) ==> model_object(self@.this) == Some(o@),
    {
        (ArgParser::new(self), self.this.object())
    }

    /// Returns an argument parser loaded with the values of the call, and
    /// `$this` when the call is a method call on an object exactly of the
    /// given class.
    pub fn parser_method(&self, ce: &ClassEntry) -> (r: (ArgParser<'_>, Option<&ZendObject>))
        ensures
            r.0.args() == Seq::<crate::args::ArgModel>::empty(),
            r.0.min_num_args() is None,
            r.0.call_args() == self@.args,
            r.1 is Some <==> (model_object(self@.this) matches Some(o) && o.class.id == ce@.id),
            r.1 matches Some(o) ==> model_object(self@.this) == Some(o@),
    {
        (ArgParser::new(self), self.get_object(ce))
    }

    /// Returns `$this` when the call is a method call on an object exactly
    /// of the given class.
    pub fn get_object(&self, ce: &ClassEntry) -> (r: Option<&ZendObject>)
        ensures
            r is Some <==> (model_object(self@.this) matches Some(o) && o.class.id == ce@.id),
            r matches Some(o) ==> model_object(self@.this) == Some(o@),
    {
        match self.get_self() {
            Some(o) => if o.is_instance(ce) {
                Some(o)
            } else {
                None
            },
            None => None,
        }
    }

    /// Returns the `$this` object, if the call is a method call.
    pub fn get_self(&self) -> (r: Option<&ZendObject>)
        ensures
            r is Some <==> model_object(self@.this) is Some,
            r matches Some(o) ==> model_object(self@.this) == Some(o@),
    {
        self.this.object()
    }

    /// `ZEND_MM_ALIGNED_SIZE(size)`: the size rounded up to
    /// the memory manager's alignment.
    pub fn zend_mm_aligned_size(size: usize) -> (r: isize)
        requires
            size + ZEND_MM_ALIGNMENT - 1 <= isize::MAX,
        ensures
            r as int == spec_aligned_size(size as int),
    {
        let s = size as isize;
        let a = ZEND_MM_ALIGNMENT as isize;
        assert(s == size as int && a == 8);
        let t = s + (a - 1);
        assert((t / a) * a <= t) by (nonlinear_arith)
            requires
                t >= 0,
                a > 0,
        ;
        assert((t / a) * a >= 0) by (nonlinear_arith)
            requires
                t >= 0,
                a > 0,
        ;
        (t / a) * a
    }

    /// `ZEND_CALL_FRAME_SLOT`: the number of zval slots the
    /// execute data record takes before the first argument.
    pub fn zend_call_frame_slot() -> (r: isize)
        ensures
            r as int == (spec_aligned_size(EXECUTE_DATA_SIZE as int) + spec_aligned_size(
                ZVAL_SIZE as int,
            ) - 1) / spec_aligned_size(ZVAL_SIZE as int),
            r == 5,
    {
        assert(spec_aligned_size(80) == 80);
        assert(spec_aligned_size(16) == 16);
        assert((80 + 16 - 1) / 16int == 5);
        (Self::zend_mm_aligned_size(EXECUTE_DATA_SIZE as usize) + Self::zend_mm_aligned_size(
            ZVAL_SIZE as usize,
        ) - 1) / Self::zend_mm_aligned_size(ZVAL_SIZE as usize)
    }
}

} // verus!
