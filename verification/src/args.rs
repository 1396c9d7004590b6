//! Arguments of functions and methods, and the parser that binds them to
//! the values a call received.

use vstd::prelude::*;

use vstd::string::*;
use vstd::utf8::*;

use crate::class::ClassEntry;
use crate::convert::FromZval;
use crate::error::Error;
use crate::exceptions::{after_throw_of, lemma_builtin_class_throwable, throw};
use crate::execute_data::ExecuteData;
use crate::flags::DataType;
use crate::globals::{ExecutorGlobals, ExecutorModel};
use crate::text::{decimal, u64_to_string};
use crate::zval::{Zval, ZvalModel};

verus! {

/// `Z_EXPECTED_LONG`.
pub const Z_EXPECTED_LONG: u32 = 0;
/// `Z_EXPECTED_BOOL`.
pub const Z_EXPECTED_BOOL: u32 = 2;
/// `Z_EXPECTED_STRING`.
pub const Z_EXPECTED_STRING: u32 = 4;
/// `Z_EXPECTED_ARRAY`.
pub const Z_EXPECTED_ARRAY: u32 = 6;
/// `Z_EXPECTED_RESOURCE`.
pub const Z_EXPECTED_RESOURCE: u32 = 14;
/// `Z_EXPECTED_OBJECT`.
pub const Z_EXPECTED_OBJECT: u32 = 18;
/// `Z_EXPECTED_DOUBLE`.
pub const Z_EXPECTED_DOUBLE: u32 = 20;

/// Represents an argument to a function.
#[derive(Debug)]
pub struct Arg<'a> {
    pub(crate) name: String,
    pub(crate) _type: DataType,
    pub(crate) as_ref: bool,
    pub(crate) allow_null: bool,
    pub(crate) default_value: Option<String>,
    pub(crate) zval: Option<&'a Zval>,
}

/// Abstract argument.
pub struct ArgModel {
    pub name: Seq<char>,
    pub ty: DataType,
    pub as_ref: bool,
    pub allow_null: bool,
    pub default_value: Option<Seq<char>>,
    pub zval: Option<ZvalModel>,
}

impl<'a> View for Arg<'a> {
    type V = ArgModel;

    closed spec fn view(&self) -> ArgModel {
        ArgModel {
            name: self.name@,
            ty: self._type,
            as_ref: self.as_ref,
            allow_null: self.allow_null,
            default_value: match &self.default_value {
                Some(d) => Some(d@),
                None => None,
            },
            zval: match self.zval {
                Some(z) => Some(z@),
                None => None,
            },
        }
    }
}

/// The abstract argument is made of the argument's fields.
pub(crate) proof fn lemma_arg_fields<'a>(a: &Arg<'a>)
    ensures
        a@.name == a.name@,
        a@.ty == a._type,
        a@.as_ref == a.as_ref,
        a@.allow_null == a.allow_null,
        a@.default_value == (match &a.default_value {
            Some(d) => Some(d@),
            None => None::<Seq<char>>,
        }),
{
}

/// Whether the data type has an expected-type code.
pub open spec fn has_expected_type(t: DataType) -> bool {
    match t {
        DataType::False | DataType::True | DataType::Long | DataType::Double | DataType::String
        | DataType::Array | DataType::Object(_) | DataType::Resource => true,
        _ => false,
    }
}

/// The expected-type code of an argument: the code of its type, plus one
/// when it accepts null.
pub open spec fn spec_expected_type(t: DataType, allow_null: bool) -> u32 {
    let base: u32 = match t {
        DataType::False | DataType::True => Z_EXPECTED_BOOL,
        DataType::Long => Z_EXPECTED_LONG,
        DataType::Double => Z_EXPECTED_DOUBLE,
        DataType::String => Z_EXPECTED_STRING,
        DataType::Array => Z_EXPECTED_ARRAY,
        DataType::Object(_) => Z_EXPECTED_OBJECT,
        _ => Z_EXPECTED_RESOURCE,
    };
    if allow_null {
        (base + 1) as u32
    } else {
        base
    }
}

impl<'a> Arg<'a> {
    /// Creates a new argument with a name and a type.
    pub fn new(name: String, _type: DataType) -> (r: Arg<'a>)
        ensures
            r@ == (ArgModel {
                name: name@,
                ty: _type,
                as_ref: false,
                allow_null: false,
                default_value: None,
                zval: None,
            }),
    {
        Arg { name, _type, as_ref: false, allow_null: false, default_value: None, zval: None }
    }

    /// Sets the argument as a reference.
    pub fn as_ref(self) -> (r: Arg<'a>)
        ensures
            r@ == (ArgModel { as_ref: true, ..self@ }),
    {
        Arg { as_ref: true, ..self }
    }

    /// Sets the argument as nullable.
    pub fn allow_null(self) -> (r: Arg<'a>)
        ensures
            r@ == (ArgModel { allow_null: true, ..self@ }),
    {
        Arg { allow_null: true, ..self }
    }

    /// Sets the default value of the argument.
    pub fn default(self, default: String) -> (r: Arg<'a>)
        ensures
            r@ == (ArgModel { default_value: Some(default@), ..self@ }),
    {
        Arg { default_value: Some(default), ..self }
    }

    /// The name of the argument.
    pub fn name(&self) -> (r: &str)
        ensures
            r@ == self@.name,
    {
        self.name.as_str()
    }

    /// The type of the argument.
    pub fn data_type(&self) -> (r: DataType)
        ensures
            r == self@.ty,
    {
        self._type
    }

    /// Whether the argument is passed by reference.
    pub fn is_ref(&self) -> (r: bool)
        ensures
            r == self@.as_ref,
    {
        self.as_ref
    }

    /// Whether the argument accepts null.
    pub fn is_nullable(&self) -> (r: bool)
        ensures
            r == self@.allow_null,
    {
        self.allow_null
    }

    /// The default value of the argument, as PHP source text.
    pub fn default_value(&self) -> (r: Option<String>)
        ensures
            r is Some <==> self@.default_value is Some,
            r matches Some(d) ==> self@.default_value == Some(d@),
    {
        match &self.default_value {
            Some(d) => Some(d.clone()),
            None => None,
        }
    }

    /// Attempts to retrieve the value of the argument; [`None`] until the
    /// arguments have been parsed, or if the value does not convert.
    pub fn val<T: FromZval>(&self) -> (r: Option<T>)
        ensures
            r is Some <==> (self@.zval matches Some(z) && T::accepts(z)),
            r matches Some(v) ==> T::read_as(self@.zval.unwrap(), v),
    {
        match self.zval {
            Some(zv) => T::from_zval(zv),
            None => None,
        }
    }

    /// The argument's zval, once the arguments have been parsed.
    pub fn zval(&self) -> (r: Option<&'a Zval>)
        ensures
            r is Some <==> self@.zval is Some,
            r matches Some(z) ==> self@.zval == Some(z@),
    {
        self.zval
    }

    /// The code of the type the engine names when the argument is missing or
    /// of the wrong type (`_zend_expected_type`).
    pub fn expected_type(&self) -> (r: u32)
        requires
            has_expected_type(self@.ty),
        ensures
            r == spec_expected_type(self@.ty, self@.allow_null),
    {
        let err: u32 = match self._type {
            DataType::False | DataType::True => Z_EXPECTED_BOOL,
            DataType::Long => Z_EXPECTED_LONG,
            DataType::Double => Z_EXPECTED_DOUBLE,
            DataType::String => Z_EXPECTED_STRING,
            DataType::Array => Z_EXPECTED_ARRAY,
            DataType::Object(_) => Z_EXPECTED_OBJECT,
            _ => Z_EXPECTED_RESOURCE,
        };
        if self.allow_null {
            err + 1
        } else {
            err
        }
    }
}

/// The message of the engine's `ArgumentCountError` for a call of the
/// function that received `given` values where it takes from `min` to `max`
/// arguments: the function, the bound it missed (exactly, at least or at
/// most), and the number given.
pub open spec fn count_error_message(name: Seq<char>, min: u32, max: u32, given: u32) -> Seq<char> {
    let bound: u32 = if given < min {
        min
    } else {
        max
    };
    name + "() expects "@ + (if min == max {
        "exactly"@
    } else if given < min {
        "at least"@
    } else {
        "at most"@
    }) + " "@ + decimal(bound as int) + " argument"@ + (if bound == 1 {
        ""@
    } else {
        "s"@
    }) + ", "@ + decimal(given as int) + " given"@
}

/// Builds the message of the engine's `ArgumentCountError`.
fn count_error_text(name: &str, min: u32, max: u32, given: u32) -> (r: String)
    ensures
        r@ == count_error_message(name@, min, max, given),
{
    let bound: u32 = if given < min {
        min
    } else {
        max
    };
    let mut m = name.to_string();
    m.append("() expects ");
    if min == max {
        m.append("exactly");
    } else if given < min {
        m.append("at least");
    } else {
        m.append("at most");
    }
    m.append(" ");
    let b = u64_to_string(bound as u64);
    m.append(b.as_str());
    m.append(" argument");
    if bound == 1 {
        m.append("");
    } else {
        m.append("s");
    }
    m.append(", ");
    let g = u64_to_string(given as u64);
    m.append(g.as_str());
    m.append(" given");
    m
}

/// Parses the arguments of a function.
pub struct ArgParser<'a> {
    args: Vec<Arg<'a>>,
    min_num_args: Option<u32>,
    execute_data: &'a ExecuteData,
}

impl<'a> ArgParser<'a> {
    /// The arguments added so far.
    pub closed spec fn args(&self) -> Seq<ArgModel> {
        self.args@.map_values(|a: Arg<'a>| a@)
    }

    /// The number of arguments from which on arguments are optional.
    pub closed spec fn min_num_args(&self) -> Option<u32> {
        self.min_num_args
    }

    /// The values the call received.
    pub closed spec fn call_args(&self) -> Seq<ZvalModel> {
        self.execute_data@.args
    }

    /// Builds a new argument parser for the given call.
    pub fn new(execute_data: &'a ExecuteData) -> (r: ArgParser<'a>)
        ensures
            r.args() == Seq::<ArgModel>::empty(),
            r.min_num_args() is None,
            r.call_args() == execute_data@.args,
    {
        let r = ArgParser { args: Vec::new(), min_num_args: None, execute_data };
        assert(r.args() =~= Seq::<ArgModel>::empty());
        r
    }

    /// Adds an argument to the parser.
    pub fn arg(self, arg: Arg<'a>) -> (r: ArgParser<'a>)
        ensures
            r.args() == self.args().push(arg@),
            r.min_num_args() == self.min_num_args(),
            r.call_args() == self.call_args(),
    {
        let ArgParser { mut args, min_num_args, execute_data } = self;
        let ghost a = arg@;
        let ghost before = args@.map_values(|a: Arg<'a>| a@);
        args.push(arg);
        let r = ArgParser { args, min_num_args, execute_data };
        assert(r.args() =~= before.push(a));
        r
    }

    /// Makes the arguments added after this call optional.
    pub fn not_required(self) -> (r: ArgParser<'a>)
        requires
            self.args().len() <= u32::MAX,
        ensures
            r.args() == self.args(),
            r.min_num_args() == Some(self.args().len() as u32),
            r.call_args() == self.call_args(),
    {
        let n = self.args.len() as u32;
        ArgParser { min_num_args: Some(n), ..self }
    }

    /// The name of the called function.
    pub closed spec fn function_name(&self) -> Seq<char> {
        self.execute_data@.function_name
    }

    /// Binds the added arguments to the values the call received. When fewer
    /// values than required or more values than arguments were passed, the
    /// engine's `ArgumentCountError` is thrown, as
    /// `zend_wrong_parameters_count_error` does, and the parse fails with
    /// [`Error::IncorrectArguments`] (received, then required). Optional
    /// arguments the call did not pass stay without a value.
    pub fn parse(self, eg: &mut ExecutorGlobals) -> (r: Result<Vec<Arg<'a>>, Error>)
        requires
            self.args().len() <= u32::MAX,
            self.call_args().len() <= u32::MAX,
            old(eg)@.next_handle < u32::MAX,
        ensures
            ({
                let n = self.call_args().len();
                let max = self.args().len();
                let min = match self.min_num_args() {
                    Some(m) => m as int,
                    None => max as int,
                };
                &&& r is Err <==> (n < min || n > max)
                &&& r matches Err(e) ==> e == Error::IncorrectArguments(n as u32, min as u32)
                    && final(eg)@ == after_throw_of(
                    old(eg)@,
                    ClassEntry::argument_count_error_model(),
                    0,
                    encode_utf8(count_error_message(self.function_name(), min as u32, max as u32, n as u32)),
                ) && crate::globals::tables_kept(*final(eg), *old(eg))
                &&& r is Ok ==> *final(eg) == *old(eg)
                &&& r matches Ok(v) ==> v@.len() == max && forall|i: int|
                    0 <= i < max ==> (#[trigger] v@[i])@ == (ArgModel {
                        zval: if i < n {
                            Some(self.call_args()[i])
                        } else {
                            None
                        },
                        ..self.args()[i]
                    })
            }),
    {
        let num_args = self.execute_data.args.len() as u32;
        let max_num_args = self.args.len() as u32;
        let min_num_args = match self.min_num_args {
            Some(n) => n,
            None => max_num_args,
        };
        if num_args < min_num_args || num_args > max_num_args {
            let message = count_error_text(
                self.execute_data.function_name.as_str(),
                min_num_args,
                max_num_args,
                num_args,
            );
            let ce = ClassEntry::argument_count_error();
            proof {
                lemma_builtin_class_throwable(ce@);
            }
            let _ = throw(eg, &ce, message.as_str());
            return Err(Error::IncorrectArguments(num_args, min_num_args));
        }
        let ArgParser { args, min_num_args: _, execute_data } = self;
        let ghost before = args@.map_values(|a: Arg<'a>| a@);
        let mut out: Vec<Arg<'a>> = Vec::new();
        let mut rest = args;
        let mut i: usize = 0;
        while rest.len() > 0
            invariant
                i + rest@.len() == before.len(),
                out@.len() == i,
                execute_data@.args.len() == num_args as int,
                num_args <= before.len(),
                before.len() <= u32::MAX,
                forall|j: int| 0 <= j < rest@.len() ==> (#[trigger] rest@[j])@ == before[i + j],
                forall|j: int| 0 <= j < i ==> (#[trigger] out@[j])@ == (ArgModel {
                    zval: if j < num_args {
                        Some(execute_data@.args[j])
                    } else {
                        None
                    },
                    ..before[j]
                }),
            decreases rest@.len(),
        {
            let a = rest.remove(0);
            let zval = if i < execute_data.args.len() {
                Some(&execute_data.args[i])
            } else {
                None
            };
            out.push(Arg { zval, ..a });
            i = i + 1;
        }
        Ok(out)
    }
}

} // verus!
