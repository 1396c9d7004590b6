//! Function entries and the builder that produces them for functions
//! exported to PHP.

use vstd::prelude::*;
use vstd::utf8::*;

use crate::args::{Arg, ArgModel};
use crate::flags::DataType;
use crate::string::has_nul;
use crate::text::{decimal, u64_to_string};
use crate::zend_type::{
    class_name_has_nul, spec_arg_info_flags, spec_type_for, ZendType, ZendTypeModel,
};

verus! {

/// The address of the native handler the engine calls for a function.
pub type FunctionHandler = usize;

/// Whether text can be handed to C: its UTF-8 encoding holds no NUL byte.
pub open spec fn c_text(s: Seq<char>) -> bool {
    !has_nul(encode_utf8(s))
}

/// Information about one argument of a function, or, in the first slot,
/// about the function's return value.
#[derive(Debug)]
pub struct ArgInfo {
    pub name: String,
    pub type_: ZendType,
    pub default_value: Option<String>,
}

/// Abstract argument information.
pub struct ArgInfoModel {
    pub name: Seq<char>,
    pub type_: ZendTypeModel,
    pub default_value: Option<Seq<char>>,
}

impl View for ArgInfo {
    type V = ArgInfoModel;

    open spec fn view(&self) -> ArgInfoModel {
        ArgInfoModel {
            name: self.name@,
            type_: self.type_@,
            default_value: match &self.default_value {
                Some(d) => Some(d@),
                None => None,
            },
        }
    }
}

/// A Zend function entry.
#[derive(Debug)]
pub struct FunctionEntry {
    pub fname: Option<String>,
    pub handler: Option<FunctionHandler>,
    pub arg_info: Vec<ArgInfo>,
    pub num_args: u32,
    pub flags: u32,
}

/// Abstract function entry.
pub struct FunctionEntryModel {
    pub fname: Option<Seq<char>>,
    pub handler: Option<FunctionHandler>,
    pub arg_info: Seq<ArgInfoModel>,
    pub num_args: u32,
    pub flags: u32,
}

impl View for FunctionEntry {
    type V = FunctionEntryModel;

    open spec fn view(&self) -> FunctionEntryModel {
        FunctionEntryModel {
            fname: match &self.fname {
                Some(n) => Some(n@),
                None => None,
            },
            handler: self.handler,
            arg_info: self.arg_info@.map_values(|a: ArgInfo| a@),
            num_args: self.num_args,
            flags: self.flags,
        }
    }
}

/// The entry that ends a list of functions.
pub open spec fn end_entry() -> FunctionEntryModel {
    FunctionEntryModel {
        fname: None,
        handler: None,
        arg_info: Seq::empty(),
        num_args: 0,
        flags: 0,
    }
}

impl FunctionEntry {
    /// Returns an empty function entry, signifying the end of a function
    /// list.
    pub fn end() -> (r: FunctionEntry)
        ensures
            r@ == end_entry(),
    {
        let r = FunctionEntry { fname: None, handler: None, arg_info: Vec::new(), num_args: 0, flags: 0 };
        assert(r@.arg_info =~= Seq::<ArgInfoModel>::empty());
        r
    }

    /// Moves the function entry to the heap, handing its ownership over.
    pub fn into_raw(self) -> (r: Box<FunctionEntry>)
        ensures
            r@ == self@,
    {
        Box::new(self)
    }
}

/// Abstract function builder.
pub struct FunctionBuilderModel {
    pub name: Seq<char>,
    pub handler: FunctionHandler,
    pub args: Seq<ArgModel>,
    pub n_req: Option<nat>,
    pub retval: Option<DataType>,
    pub ret_as_ref: bool,
    pub ret_as_null: bool,
}

/// Builds a function to be exported as a PHP function.
pub struct FunctionBuilder<'a> {
    name: String,
    handler: FunctionHandler,
    args: Vec<Arg<'a>>,
    n_req: Option<usize>,
    retval: Option<DataType>,
    ret_as_ref: bool,
    ret_as_null: bool,
}

impl<'a> View for FunctionBuilder<'a> {
    type V = FunctionBuilderModel;

    closed spec fn view(&self) -> FunctionBuilderModel {
        FunctionBuilderModel {
            name: self.name@,
            handler: self.handler,
            args: self.args@.map_values(|a: Arg<'a>| a@),
            n_req: match self.n_req {
                Some(n) => Some(n as nat),
                None => None,
            },
            retval: self.retval,
            ret_as_ref: self.ret_as_ref,
            ret_as_null: self.ret_as_null,
        }
    }
}

/// The number of required arguments the header of a built function records.
pub open spec fn required_count(b: FunctionBuilderModel) -> nat {
    match b.n_req {
        Some(n) => n,
        None => b.args.len(),
    }
}

/// The type a built function records for a data type: the type
/// `ZendType::empty_from_type` builds, or the empty type by value when the
/// data type names a class whose name holds a NUL byte.
pub open spec fn recorded_type(t: DataType, as_ref: bool, allow_null: bool) -> ZendTypeModel {
    if class_name_has_nul(t) {
        ZendTypeModel { class_name: None, type_mask: spec_arg_info_flags(false, false) }
    } else {
        spec_type_for(t, as_ref, false, allow_null)
    }
}

/// The header of the argument information: the number of required arguments
/// as its name, and the return type.
pub open spec fn header_info(b: FunctionBuilderModel) -> ArgInfoModel {
    ArgInfoModel {
        name: decimal(required_count(b) as int),
        type_: match b.retval {
            Some(t) => recorded_type(t, b.ret_as_ref, b.ret_as_null),
            None => ZendTypeModel { class_name: None, type_mask: spec_arg_info_flags(false, false) },
        },
        default_value: None,
    }
}

/// The argument information of one argument.
pub open spec fn arg_info_of(a: ArgModel) -> ArgInfoModel {
    ArgInfoModel {
        name: a.name,
        type_: recorded_type(a.ty, a.as_ref, a.allow_null),
        default_value: a.default_value,
    }
}

/// Whether every name and default value of the arguments can be handed to C.
pub open spec fn args_c_text(args: Seq<ArgModel>) -> bool {
    forall|i: int|
        0 <= i < args.len() ==> c_text(#[trigger] args[i].name) && (args[i].default_value matches Some(
            d,
        ) ==> c_text(d))
}

impl<'a> FunctionBuilder<'a> {
    /// Creates a new function builder for a function with the given name and
    /// handler.
    pub fn new(name: &str, handler: FunctionHandler) -> (r: FunctionBuilder<'a>)
        requires
            c_text(name@),
        ensures
            r@ == (FunctionBuilderModel {
                name: name@,
                handler,
                args: Seq::empty(),
                n_req: None,
                retval: None,
                ret_as_ref: false,
                ret_as_null: false,
            }),
    {
        let r = FunctionBuilder {
            name: name.to_owned(),
            handler,
            args: Vec::new(),
            n_req: None,
            retval: None,
            ret_as_ref: false,
            ret_as_null: false,
        };
        assert(r@.args =~= Seq::<ArgModel>::empty());
        r
    }

    /// Adds an argument to the function.
    pub fn arg(self, arg: Arg<'a>) -> (r: FunctionBuilder<'a>)
        ensures
            r@ == (FunctionBuilderModel { args: self@.args.push(arg@), ..self@ }),
    {
        let FunctionBuilder { name, handler, mut args, n_req, retval, ret_as_ref, ret_as_null } = self;
        let ghost before = args@.map_values(|a: Arg<'a>| a@);
        let ghost a = arg@;
        args.push(arg);
        let r = FunctionBuilder { name, handler, args, n_req, retval, ret_as_ref, ret_as_null };
        assert(r@.args =~= before.push(a));
        r
    }

    /// Makes the arguments added after this call optional.
    pub fn not_required(self) -> (r: FunctionBuilder<'a>)
        ensures
            r@ == (FunctionBuilderModel { n_req: Some(self@.args.len()), ..self@ }),
    {
        let n = self.args.len();
        FunctionBuilder { n_req: Some(n), ..self }
    }

    /// Sets the return type of the function, whether it returns a reference
    /// and whether the return value is nullable.
    pub fn return_type(self, type_: DataType, as_ref: bool, allow_null: bool) -> (r: FunctionBuilder<
        'a,
    >)
        ensures
            r@ == (FunctionBuilderModel {
                retval: Some(type_),
                ret_as_ref: as_ref,
                ret_as_null: allow_null,
                ..self@
            }),
    {
        FunctionBuilder { retval: Some(type_), ret_as_ref: as_ref, ret_as_null: allow_null, ..self }
    }

    /// Builds the function entry: the header records the number of required
    /// arguments and the return type, followed by one slot per argument; the
    /// entry counts the arguments.
    pub fn build(self) -> (r: FunctionEntry)
        requires
            args_c_text(self@.args),
            self@.args.len() <= u32::MAX,
        ensures
            r@.fname == Some(self@.name),
            r@.handler == Some(self@.handler),
            r@.num_args == self@.args.len(),
            r@.flags == 0,
            r@.arg_info.len() == self@.args.len() + 1,
            r@.arg_info[0] == header_info(self@),
            forall|i: int|
                0 <= i < self@.args.len() ==> #[trigger] r@.arg_info[i + 1] == arg_info_of(
                    self@.args[i],
                ),
    {
        let ghost model = self@;
        let FunctionBuilder { name, handler, args, n_req, retval, ret_as_ref, ret_as_null } = self;
        let req: usize = match n_req {
            Some(n) => n,
            None => args.len(),
        };
        let ret_type = match retval {
            Some(t) => match ZendType::empty_from_type(t, ret_as_ref, false, ret_as_null) {
                Some(z) => z,
                None => ZendType::empty(false, false),
            },
            None => ZendType::empty(false, false),
        };
        let mut infos: Vec<ArgInfo> = Vec::new();
        infos.push(ArgInfo { name: u64_to_string(req as u64), type_: ret_type, default_value: None });
        let ghost amodels = args@.map_values(|a: Arg<'a>| a@);
        let n = args.len();
        let mut rest = args;
        let mut i: usize = 0;
        while rest.len() > 0
            invariant
                i + rest@.len() == amodels.len(),
                amodels.len() == n,
                n <= u32::MAX,
                infos@.len() == i + 1,
                infos@[0]@ == header_info(model),
                amodels == model.args,
                forall|j: int| 0 <= j < rest@.len() ==> (#[trigger] rest@[j])@ == amodels[i + j],
                forall|j: int| 0 <= j < i ==> (#[trigger] infos@[j + 1])@ == arg_info_of(amodels[j]),
            decreases rest@.len(),
        {
            let a = rest.remove(0);
            let ghost am = a@;
            assert(am == amodels[i as int]);
            proof {
                crate::args::lemma_arg_fields(&a);
            }
            let t = match ZendType::empty_from_type(a._type, a.as_ref, false, a.allow_null) {
                Some(z) => z,
                None => ZendType::empty(false, false),
            };
            let Arg { name, _type, as_ref, allow_null, default_value, zval } = a;
            infos.push(ArgInfo { name, type_: t, default_value });
            i = i + 1;
        }
        let r = FunctionEntry {
            fname: Some(name),
            handler: Some(handler),
            arg_info: infos,
            num_args: n as u32,
            flags: 0,
        };
        assert forall|j: int| 0 <= j < model.args.len() implies #[trigger] r@.arg_info[j + 1]
            == arg_info_of(model.args[j]) by {
            assert(r@.arg_info[j + 1] == r.arg_info@[j + 1]@);
        }
        r
    }
}

} // verus!
