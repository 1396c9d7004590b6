//! The builder that declares a PHP class and registers it.

use vstd::prelude::*;
use vstd::string::*;
use vstd::utf8::*;

use crate::class::{flags_interface, ClassEntry, ClassModel, BUILTIN_CLASS_FLAGS};
use crate::convert::IntoZval;
use crate::error::Error;
use crate::flags::{ClassFlags, MethodFlags, PropertyFlags};
use crate::function::{FunctionEntry, FunctionEntryModel};
use crate::string::{contains_nul, has_nul};
use crate::zval::{Zval, ZvalModel};

verus! {

/// A property declared on a class: its name, default value and flags.
#[derive(Debug)]
pub struct ClassProperty {
    pub name: String,
    pub default: Zval,
    pub flags: PropertyFlags,
}

/// A constant declared on a class: its name and value.
#[derive(Debug)]
pub struct ClassConstant {
    pub name: String,
    pub value: Zval,
}

/// Abstract declared property.
pub struct PropertyModel {
    pub name: Seq<char>,
    pub default: ZvalModel,
    pub flags: u32,
}

/// Abstract declared constant.
pub struct ConstantModel {
    pub name: Seq<char>,
    pub value: ZvalModel,
}

impl View for ClassProperty {
    type V = PropertyModel;

    open spec fn view(&self) -> PropertyModel {
        PropertyModel { name: self.name@, default: self.default@, flags: self.flags@ }
    }
}

impl View for ClassConstant {
    type V = ConstantModel;

    open spec fn view(&self) -> ConstantModel {
        ConstantModel { name: self.name@, value: self.value@ }
    }
}

/// The members a registered class declares: its methods, closed by the
/// entry that ends a function list, its properties and its constants.
#[derive(Debug)]
pub struct ClassMembers {
    pub methods: Vec<FunctionEntry>,
    pub properties: Vec<ClassProperty>,
    pub constants: Vec<ClassConstant>,
}

/// Abstract class builder.
pub struct ClassBuilderModel {
    pub name: Seq<char>,
    pub flags: u32,
    pub extends: Option<ClassModel>,
    pub interfaces: Seq<ClassModel>,
    pub methods: Seq<FunctionEntryModel>,
    pub properties: Seq<PropertyModel>,
    pub constants: Seq<ConstantModel>,
}

/// Builds a class to be exported as a PHP class.
#[derive(Debug)]
pub struct ClassBuilder {
    name: String,
    flags: u32,
    extends: Option<ClassEntry>,
    interfaces: Vec<ClassEntry>,
    methods: Vec<FunctionEntry>,
    properties: Vec<ClassProperty>,
    constants: Vec<ClassConstant>,
}

impl View for ClassBuilder {
    type V = ClassBuilderModel;

    closed spec fn view(&self) -> ClassBuilderModel {
        ClassBuilderModel {
            name: self.name@,
            flags: self.flags,
            extends: match &self.extends {
                Some(c) => Some(c@),
                None => None,
            },
            interfaces: self.interfaces@.map_values(|c: ClassEntry| c@),
            methods: self.methods@.map_values(|f: FunctionEntry| f@),
            properties: self.properties@.map_values(|p: ClassProperty| p@),
            constants: self.constants@.map_values(|c: ClassConstant| c@),
        }
    }
}

/// Whether one of the names cannot be handed to C.
pub open spec fn some_property_name_has_nul(ps: Seq<PropertyModel>) -> bool {
    exists|i: int| 0 <= i < ps.len() && has_nul(encode_utf8(#[trigger] ps[i].name))
}

/// Whether one of the names cannot be handed to C.
pub open spec fn some_constant_name_has_nul(cs: Seq<ConstantModel>) -> bool {
    exists|i: int| 0 <= i < cs.len() && has_nul(encode_utf8(#[trigger] cs[i].name))
}

/// Whether the class cannot be registered: a name that cannot be handed to
/// C.
pub open spec fn build_fails(b: ClassBuilderModel) -> bool {
    has_nul(encode_utf8(b.name)) || some_property_name_has_nul(b.properties)
        || some_constant_name_has_nul(b.constants)
}

/// Looks for a property whose name holds a NUL byte.
fn find_nul_property(ps: &Vec<ClassProperty>) -> (r: bool)
    ensures
        r == some_property_name_has_nul(ps@.map_values(|p: ClassProperty| p@)),
{
    let ghost m = ps@.map_values(|p: ClassProperty| p@);
    let mut i: usize = 0;
    while i < ps.len()
        invariant
            i <= ps@.len(),
            m == ps@.map_values(|p: ClassProperty| p@),
            forall|j: int| 0 <= j < i ==> !has_nul(encode_utf8(#[trigger] m[j].name)),
        decreases ps@.len() - i,
    {
        if contains_nul(ps[i].name.as_str().as_bytes()) {
            assert(has_nul(encode_utf8(m[i as int].name)));
            return true;
        }
        i = i + 1;
    }
    false
}

/// Looks for a constant whose name holds a NUL byte.
fn find_nul_constant(cs: &Vec<ClassConstant>) -> (r: bool)
    ensures
        r == some_constant_name_has_nul(cs@.map_values(|c: ClassConstant| c@)),
{
    let ghost m = cs@.map_values(|c: ClassConstant| c@);
    let mut i: usize = 0;
    while i < cs.len()
        invariant
            i <= cs@.len(),
            m == cs@.map_values(|c: ClassConstant| c@),
            forall|j: int| 0 <= j < i ==> !has_nul(encode_utf8(#[trigger] m[j].name)),
        decreases cs@.len() - i,
    {
        if contains_nul(cs[i].name.as_str().as_bytes()) {
            assert(has_nul(encode_utf8(m[i as int].name)));
            return true;
        }
        i = i + 1;
    }
    false
}

impl ClassBuilder {
    /// Creates a new class builder for a class with the given name.
    pub fn new(name: &str) -> (r: ClassBuilder)
        ensures
            r@ == (ClassBuilderModel {
                name: name@,
                flags: 0,
                extends: None,
                interfaces: Seq::empty(),
                methods: Seq::empty(),
                properties: Seq::empty(),
                constants: Seq::empty(),
            }),
    {
        let r = ClassBuilder {
            name: name.to_owned(),
            flags: 0,
            extends: None,
            interfaces: Vec::new(),
            methods: Vec::new(),
            properties: Vec::new(),
            constants: Vec::new(),
        };
        assert(r@.interfaces =~= Seq::<ClassModel>::empty());
        assert(r@.methods =~= Seq::<FunctionEntryModel>::empty());
        assert(r@.properties =~= Seq::<PropertyModel>::empty());
        assert(r@.constants =~= Seq::<ConstantModel>::empty());
        r
    }

    /// Makes the class extend another class.
    pub fn extends(self, parent: &ClassEntry) -> (r: ClassBuilder)
        ensures
            r@ == (ClassBuilderModel { extends: Some(parent@), ..self@ }),
    {
        ClassBuilder { extends: Some(parent.duplicate()), ..self }
    }

    /// Implements an interface on the class; the entry must be an interface.
    pub fn implements(self, interface: &ClassEntry) -> (r: ClassBuilder)
        requires
            flags_interface(interface@.flags),
        ensures
            r@ == (ClassBuilderModel { interfaces: self@.interfaces.push(interface@), ..self@ }),
    {
        let ClassBuilder { name, flags, extends, mut interfaces, methods, properties, constants } =
            self;
        let ghost before = interfaces@.map_values(|c: ClassEntry| c@);
        interfaces.push(interface.duplicate());
        let r = ClassBuilder { name, flags, extends, interfaces, methods, properties, constants };
        assert(r@.interfaces =~= before.push(interface@));
        r
    }

    /// Adds a method to the class, with the given method flags.
    pub fn method(self, func: FunctionEntry, flags: MethodFlags) -> (r: ClassBuilder)
        ensures
            r@ == (ClassBuilderModel {
                methods: self@.methods.push(FunctionEntryModel { flags: flags@, ..func@ }),
                ..self@
            }),
    {
        let ClassBuilder { name, flags: cflags, extends, interfaces, mut methods, properties, constants } =
            self;
        let ghost before = methods@.map_values(|f: FunctionEntry| f@);
        let mut func = func;
        func.flags = flags.bits();
        let ghost f = func@;
        methods.push(func);
        let r = ClassBuilder { name, flags: cflags, extends, interfaces, methods, properties, constants };
        assert(r@.methods =~= before.push(f));
        r
    }

    /// Adds a property to the class, whose initial type is that of its
    /// default value. The default value must convert into a zval.
    pub fn property<V: IntoZval>(self, name: &str, default: V, flags: PropertyFlags) -> (r:
        ClassBuilder)
        requires
            default.zval_of(true) is Some,
        ensures
            r@ == (ClassBuilderModel {
                properties: self@.properties.push(
                    PropertyModel { name: name@, default: default.zval_of(true).unwrap(), flags: flags@ },
                ),
                ..self@
            }),
    {
        let ghost z = default.zval_of(true).unwrap();
        let zv = match default.into_zval(true) {
            Ok(z) => z,
            Err(_) => Zval::new(),
        };
        let ClassBuilder { name: cname, flags: cflags, extends, interfaces, methods, mut properties, constants } =
            self;
        let ghost before = properties@.map_values(|p: ClassProperty| p@);
        properties.push(ClassProperty { name: name.to_owned(), default: zv, flags });
        let r = ClassBuilder { name: cname, flags: cflags, extends, interfaces, methods, properties, constants };
        assert(r@.properties =~= before.push(PropertyModel { name: name@, default: z, flags: flags@ }));
        r
    }

    /// Adds a constant to the class, whose type is that of its value. Fails
    /// with the value's conversion error when it does not convert into a
    /// zval.
    pub fn constant<V: IntoZval>(self, name: &str, value: V) -> (r: Result<ClassBuilder, Error>)
        ensures
            r is Ok <==> value.zval_of(true) is Some,
            r matches Ok(b) ==> b@ == (ClassBuilderModel {
                constants: self@.constants.push(
                    ConstantModel { name: name@, value: value.zval_of(true).unwrap() },
                ),
                ..self@
            }),
            r matches Err(e) ==> e == value.conversion_error(),
    {
        let ghost z = value.zval_of(true);
        let zv = match value.into_zval(true) {
            Ok(z) => z,
            Err(e) => {
                return Err(e);
            },
        };
        let ClassBuilder { name: cname, flags, extends, interfaces, methods, properties, mut constants } =
            self;
        let ghost before = constants@.map_values(|c: ClassConstant| c@);
        constants.push(ClassConstant { name: name.to_owned(), value: zv });
        let r = ClassBuilder { name: cname, flags, extends, interfaces, methods, properties, constants };
        assert(r@.constants =~= before.push(ConstantModel { name: name@, value: z.unwrap() }));
        Ok(r)
    }

    /// Sets the flags of the class.
    pub fn flags(self, flags: ClassFlags) -> (r: ClassBuilder)
        ensures
            r@ == (ClassBuilderModel { flags: flags@, ..self@ }),
    {
        ClassBuilder { flags: flags.bits(), ..self }
    }

    /// Registers the class in the given slot of the class table. The entry
    /// is linked, with its parent and interfaces resolved; the members it
    /// declares come back beside it, the methods closed by the entry that
    /// ends a function list. Fails with [`Error::InvalidCString`] when the
    /// name of the class, of a property or of a constant holds a NUL byte.
    pub fn build(self, id: u32) -> (r: Result<(ClassEntry, ClassMembers), Error>)
        ensures
            r is Err <==> build_fails(self@),
            r matches Err(e) ==> e == Error::InvalidCString,
            r matches Ok((ce, members)) ==> {
                &&& ce@ == (ClassModel {
                    id,
                    name: self@.name,
                    flags: self@.flags | BUILTIN_CLASS_FLAGS,
                    parent: match self@.extends {
                        Some(p) => Some(Box::new(p)),
                        None => None,
                    },
                    interfaces: self@.interfaces,
                })
                &&& members.methods@.map_values(|f: FunctionEntry| f@) == self@.methods.push(
                    crate::function::end_entry(),
                )
                &&& members.properties@.map_values(|p: ClassProperty| p@) == self@.properties
                &&& members.constants@.map_values(|c: ClassConstant| c@) == self@.constants
            },
    {
        let ghost m = self@;
        let ClassBuilder { name, flags, extends, interfaces, mut methods, properties, constants } =
            self;
        if contains_nul(name.as_str().as_bytes()) {
            return Err(Error::InvalidCString);
        }
        if find_nul_property(&properties) {
            return Err(Error::InvalidCString);
        }
        if find_nul_constant(&constants) {
            return Err(Error::InvalidCString);
        }
        let ghost before = methods@.map_values(|f: FunctionEntry| f@);
        methods.push(FunctionEntry::end());
        assert(methods@.map_values(|f: FunctionEntry| f@) =~= before.push(crate::function::end_entry()));
        let ce = ClassEntry::new(
            id,
            name.as_str(),
            ClassFlags::from_bits_retain(flags | BUILTIN_CLASS_FLAGS),
            extends,
            interfaces,
        );
        assert(ce@.interfaces =~= m.interfaces);
        Ok((ce, ClassMembers { methods, properties, constants }))
    }
}

} // verus!
