//! Class entries: the engine's description of a PHP class or interface.

use vstd::prelude::*;

use crate::flags::{
    ClassFlags, CLASS_FLAGS_ALL, ZEND_ACC_INTERFACE, ZEND_ACC_RESOLVED_INTERFACES,
    ZEND_ACC_RESOLVED_PARENT,
};

verus! {

/// Abstract description of a class entry.
pub struct ClassModel {
    pub id: u32,
    pub name: Seq<char>,
    pub flags: u32,
    pub parent: Option<Box<ClassModel>>,
    pub interfaces: Seq<ClassModel>,
}

/// A PHP class entry.
///
/// `id` is the entry's slot in the engine's class table: two entries are the
/// same class exactly when their ids are equal.
#[derive(Debug)]
pub struct ClassEntry {
    pub id: u32,
    pub name: String,
    pub ce_flags: u32,
    pub parent: Option<Box<ClassEntry>>,
    pub interfaces: Vec<ClassEntry>,
}

/// The abstract description of a class entry.
pub open spec fn class_model(c: &ClassEntry) -> ClassModel
    decreases c,
{
    ClassModel {
        id: c.id,
        name: c.name@,
        flags: c.ce_flags,
        parent: match &c.parent {
            None => None,
            Some(p) => Some(Box::new(class_model(&**p))),
        },
        interfaces: Seq::new(
            c.interfaces@.len(),
            |i: int|
                if 0 <= i < c.interfaces@.len() {
                    class_model(&c.interfaces@[i])
                } else {
                    vstd::pervasive::arbitrary()
                },
        ),
    }
}

impl View for ClassEntry {
    type V = ClassModel;

    open spec fn view(&self) -> ClassModel {
        class_model(self)
    }
}

/// Whether the flags mark an interface.
pub open spec fn flags_interface(flags: u32) -> bool {
    (flags & CLASS_FLAGS_ALL) & ZEND_ACC_INTERFACE == ZEND_ACC_INTERFACE
}

/// Whether the flags say the parent has been resolved.
pub open spec fn flags_resolved_parent(flags: u32) -> bool {
    (flags & CLASS_FLAGS_ALL) & ZEND_ACC_RESOLVED_PARENT == ZEND_ACC_RESOLVED_PARENT
}

/// Whether the flags say the interfaces have been resolved.
pub open spec fn flags_resolved_interfaces(flags: u32) -> bool {
    (flags & CLASS_FLAGS_ALL) & ZEND_ACC_RESOLVED_INTERFACES == ZEND_ACC_RESOLVED_INTERFACES
}

/// The parent the engine reports: the stored parent once it is resolved.
pub open spec fn model_parent(c: ClassModel) -> Option<ClassModel> {
    if flags_resolved_parent(c.flags) {
        match c.parent {
            Some(p) => Some(*p),
            None => None,
        }
    } else {
        None
    }
}

/// Whether a class with the given id is among the reported ancestors.
pub open spec fn has_ancestor(c: ClassModel, id: u32) -> bool
    decreases c,
{
    if flags_resolved_parent(c.flags) {
        match c.parent {
            Some(p) => p.id == id || has_ancestor(*p, id),
            None => false,
        }
    } else {
        false
    }
}

/// Number of reported ancestors.
pub open spec fn depth(c: ClassModel) -> nat
    decreases c,
{
    if flags_resolved_parent(c.flags) {
        match c.parent {
            Some(p) => 1 + depth(*p),
            None => 0,
        }
    } else {
        0
    }
}

/// Whether a class with the given id is among the resolved interfaces.
pub open spec fn implements_id(c: ClassModel, id: u32) -> bool {
    flags_resolved_interfaces(c.flags) && exists|i: int|
        0 <= i < c.interfaces.len() && #[trigger] c.interfaces[i].id == id
}

/// Whether `c` is an instance of `other`: the same class, an implementor of
/// the interface `other`, or a descendant of the class `other`.
pub open spec fn spec_instance_of(c: ClassModel, other: ClassModel) -> bool {
    if c.id == other.id {
        true
    } else if flags_interface(other.flags) {
        implements_id(c, other.id)
    } else {
        has_ancestor(c, other.id)
    }
}

impl ClassEntry {
    /// Creates a class entry with the given slot, name, flags, parent and
    /// interfaces.
    pub fn new(
        id: u32,
        name: &str,
        flags: ClassFlags,
        parent: Option<ClassEntry>,
        interfaces: Vec<ClassEntry>,
    ) -> (r: ClassEntry)
        ensures
            r@.id == id,
            r@.name == name@,
            r@.flags == flags@,
            r@.parent == (match parent {
                Some(p) => Some(Box::new(p@)),
                None => None::<Box<ClassModel>>,
            }),
            r@.interfaces.len() == interfaces@.len(),
            forall|i: int| 0 <= i < interfaces@.len() ==> r@.interfaces[i] == interfaces@[i]@,
    {
        let parent = match parent {
            Some(p) => Some(Box::new(p)),
            None => None,
        };
        ClassEntry { id, name: name.to_owned(), ce_flags: flags.bits(), parent, interfaces }
    }

    /// Makes an identical copy of the class entry.
    pub fn duplicate(&self) -> (r: ClassEntry)
        ensures
            r@ == self@,
        decreases self,
    {
        let parent = match &self.parent {
            None => None,
            Some(p) => Some(Box::new(p.duplicate())),
        };
        let mut v: Vec<ClassEntry> = Vec::new();
        let mut i: usize = 0;
        while i < self.interfaces.len()
            invariant
                i <= self.interfaces@.len(),
                v@.len() == i,
                forall|j: int| 0 <= j < i ==> class_model(&v@[j]) == class_model(&self.interfaces@[j]),
            decreases self.interfaces@.len() - i,
        {
            let c = self.interfaces[i].duplicate();
            v.push(c);
            i = i + 1;
        }
        let r = ClassEntry { id: self.id, name: self.name.clone(), ce_flags: self.ce_flags, parent, interfaces: v };
        assert(class_model(&r).interfaces =~= class_model(self).interfaces);
        r
    }

    /// Returns the name of the class.
    pub fn name(&self) -> (r: &str)
        ensures
            r@ == self@.name,
    {
        self.name.as_str()
    }

    /// Returns the class flags.
    pub fn flags(&self) -> (r: ClassFlags)
        ensures
            r@ == self@.flags & CLASS_FLAGS_ALL,
    {
        ClassFlags::from_bits_truncate(self.ce_flags)
    }

    /// Returns `true` if the class entry is an interface, and `false`
    /// otherwise.
    pub fn is_interface(&self) -> (r: bool)
        ensures
            r == flags_interface(self@.flags),
    {
        self.flags().contains(ClassFlags::from_bits_retain(ZEND_ACC_INTERFACE))
    }

    /// Whether both entries denote the same class.
    pub fn same_class(&self, other: &ClassEntry) -> (r: bool)
        ensures
            r == (self@.id == other@.id),
    {
        self.id == other.id
    }

    /// Returns the interfaces the class implements, or [`None`] if they have
    /// not been resolved on the class.
    pub fn interfaces(&self) -> (r: Option<&Vec<ClassEntry>>)
        ensures
            r is Some <==> flags_resolved_interfaces(self@.flags),
            r matches Some(v) ==> v@.len() == self@.interfaces.len() && forall|i: int|
                0 <= i < v@.len() ==> v@[i]@ == self@.interfaces[i],
    {
        if self.flags().contains(ClassFlags::from_bits_retain(ZEND_ACC_RESOLVED_INTERFACES)) {
            Some(&self.interfaces)
        } else {
            None
        }
    }

    /// Returns the parent of the class, once it has been resolved.
    pub fn parent(&self) -> (r: Option<&ClassEntry>)
        ensures
            r is Some <==> model_parent(self@) is Some,
            r matches Some(p) ==> model_parent(self@) == Some(p@),
    {
        if self.flags().contains(ClassFlags::from_bits_retain(ZEND_ACC_RESOLVED_PARENT)) {
            match &self.parent {
                Some(p) => Some(&**p),
                None => None,
            }
        } else {
            None
        }
    }

    /// Checks if the class is an instance of another class or interface.
    pub fn instance_of(&self, other: &ClassEntry) -> (r: bool)
        ensures
            r == spec_instance_of(self@, other@),
    {
        if self.same_class(other) {
            return true;
        }
        if other.is_interface() {
            match self.interfaces() {
                None => {
                    return false;
                },
                Some(ifaces) => {
                    let mut i: usize = 0;
                    while i < ifaces.len()
                        invariant
                            i <= ifaces@.len(),
                            ifaces@.len() == self@.interfaces.len(),
                            forall|j: int| 0 <= j < ifaces@.len() ==> ifaces@[j]@ == self@.interfaces[j],
                            forall|j: int| 0 <= j < i ==> self@.interfaces[j].id != other@.id,
                            flags_resolved_interfaces(self@.flags),
                            self@.id != other@.id,
                            flags_interface(other@.flags),
                        decreases ifaces@.len() - i,
                    {
                        if ifaces[i].same_class(other) {
                            assert(self@.interfaces[i as int].id == other@.id);
                            return true;
                        }
                        i = i + 1;
                    }
                    return false;
                },
            }
        }
        let mut cur: &ClassEntry = self;
        loop
            invariant
                has_ancestor(self@, other@.id) == has_ancestor(cur@, other@.id),
                self@.id != other@.id,
                !flags_interface(other@.flags),
            decreases depth(cur@),
        {
            match cur.parent() {
                None => {
                    return false;
                },
                Some(p) => {
                    if p.same_class(other) {
                        return true;
                    }
                    cur = p;
                },
            }
        }
    }
}


/// Flags of the engine's built-in interfaces: linked, resolved.
pub const BUILTIN_INTERFACE_FLAGS: u32 = 1572873;
/// Flags of the engine's built-in classes: linked, resolved.
pub const BUILTIN_CLASS_FLAGS: u32 = 1572872;

impl ClassEntry {
    /// The engine's `stdClass` class.
    pub open spec fn std_class_model() -> ClassModel {
        ClassModel {
            id: 1,
            name: "stdClass"@,
            flags: BUILTIN_CLASS_FLAGS,
            parent: None,
            interfaces: Seq::empty(),
        }
    }

    /// The engine's `stdClass` class.
    pub fn std_class() -> (r: ClassEntry)
        ensures
            r@ == Self::std_class_model(),
    {
        let r = ClassEntry::new(1, "stdClass", ClassFlags::from_bits_retain(BUILTIN_CLASS_FLAGS), None, Vec::new());
        assert(r@.interfaces =~= Self::std_class_model().interfaces);
        r
    }

    /// The engine's `Traversable` interface.
    pub open spec fn traversable_model() -> ClassModel {
        ClassModel {
            id: 2,
            name: "Traversable"@,
            flags: BUILTIN_INTERFACE_FLAGS,
            parent: None,
            interfaces: Seq::empty(),
        }
    }

    /// The engine's `Traversable` interface.
    pub fn traversable() -> (r: ClassEntry)
        ensures
            r@ == Self::traversable_model(),
    {
        let r = ClassEntry::new(2, "Traversable", ClassFlags::from_bits_retain(BUILTIN_INTERFACE_FLAGS), None, Vec::new());
        assert(r@.interfaces =~= Self::traversable_model().interfaces);
        r
    }

    /// The engine's `Throwable` interface.
    pub open spec fn throwable_model() -> ClassModel {
        ClassModel {
            id: 3,
            name: "Throwable"@,
            flags: BUILTIN_INTERFACE_FLAGS,
            parent: None,
            interfaces: Seq::empty(),
        }
    }

    /// The engine's `Throwable` interface.
    pub fn throwable() -> (r: ClassEntry)
        ensures
            r@ == Self::throwable_model(),
    {
        let r = ClassEntry::new(3, "Throwable", ClassFlags::from_bits_retain(BUILTIN_INTERFACE_FLAGS), None, Vec::new());
        assert(r@.interfaces =~= Self::throwable_model().interfaces);
        r
    }

    /// The engine's `Exception` class.
    pub open spec fn exception_model() -> ClassModel {
        ClassModel {
            id: 4,
            name: "Exception"@,
            flags: BUILTIN_CLASS_FLAGS,
            parent: None,
            interfaces: seq![Self::throwable_model()],
        }
    }

    /// The engine's `Exception` class.
    pub fn exception() -> (r: ClassEntry)
        ensures
            r@ == Self::exception_model(),
    {
        let r = ClassEntry::new(4, "Exception", ClassFlags::from_bits_retain(BUILTIN_CLASS_FLAGS), None, vec![Self::throwable()]);
        assert(r@.interfaces =~= Self::exception_model().interfaces);
        r
    }

    /// The engine's `ErrorException` class.
    pub open spec fn error_exception_model() -> ClassModel {
        ClassModel {
            id: 5,
            name: "ErrorException"@,
            flags: BUILTIN_CLASS_FLAGS,
            parent: Some(Box::new(Self::exception_model())),
            interfaces: seq![Self::throwable_model()],
        }
    }

    /// The engine's `ErrorException` class.
    pub fn error_exception() -> (r: ClassEntry)
        ensures
            r@ == Self::error_exception_model(),
    {
        let r = ClassEntry::new(5, "ErrorException", ClassFlags::from_bits_retain(BUILTIN_CLASS_FLAGS), Some(Self::exception()), vec![Self::throwable()]);
        assert(r@.interfaces =~= Self::error_exception_model().interfaces);
        r
    }

    /// The engine's `Error` class.
    pub open spec fn error_model() -> ClassModel {
        ClassModel {
            id: 6,
            name: "Error"@,
            flags: BUILTIN_CLASS_FLAGS,
            parent: None,
            interfaces: seq![Self::throwable_model()],
        }
    }

    /// The engine's `Error` class.
    pub fn error() -> (r: ClassEntry)
        ensures
            r@ == Self::error_model(),
    {
        let r = ClassEntry::new(6, "Error", ClassFlags::from_bits_retain(BUILTIN_CLASS_FLAGS), None, vec![Self::throwable()]);
        assert(r@.interfaces =~= Self::error_model().interfaces);
        r
    }

    /// The engine's `CompileError` class.
    pub open spec fn compile_error_class_model() -> ClassModel {
        ClassModel {
            id: 7,
            name: "CompileError"@,
            flags: BUILTIN_CLASS_FLAGS,
            parent: Some(Box::new(Self::error_model())),
            interfaces: seq![Self::throwable_model()],
        }
    }

    /// The engine's `CompileError` class.
    pub fn compile_error_class() -> (r: ClassEntry)
        ensures
            r@ == Self::compile_error_class_model(),
    {
        let r = ClassEntry::new(7, "CompileError", ClassFlags::from_bits_retain(BUILTIN_CLASS_FLAGS), Some(Self::error()), vec![Self::throwable()]);
        assert(r@.interfaces =~= Self::compile_error_class_model().interfaces);
        r
    }

    /// The engine's `ParseError` class.
    pub open spec fn parse_error_model() -> ClassModel {
        ClassModel {
            id: 8,
            name: "ParseError"@,
            flags: BUILTIN_CLASS_FLAGS,
            parent: Some(Box::new(Self::compile_error_class_model())),
            interfaces: seq![Self::throwable_model()],
        }
    }

    /// The engine's `ParseError` class.
    pub fn parse_error() -> (r: ClassEntry)
        ensures
            r@ == Self::parse_error_model(),
    {
        let r = ClassEntry::new(8, "ParseError", ClassFlags::from_bits_retain(BUILTIN_CLASS_FLAGS), Some(Self::compile_error_class()), vec![Self::throwable()]);
        assert(r@.interfaces =~= Self::parse_error_model().interfaces);
        r
    }

    /// The engine's `TypeError` class.
    pub open spec fn type_error_model() -> ClassModel {
        ClassModel {
            id: 9,
            name: "TypeError"@,
            flags: BUILTIN_CLASS_FLAGS,
            parent: Some(Box::new(Self::error_model())),
            interfaces: seq![Self::throwable_model()],
        }
    }

    /// The engine's `TypeError` class.
    pub fn type_error() -> (r: ClassEntry)
        ensures
            r@ == Self::type_error_model(),
    {
        let r = ClassEntry::new(9, "TypeError", ClassFlags::from_bits_retain(BUILTIN_CLASS_FLAGS), Some(Self::error()), vec![Self::throwable()]);
        assert(r@.interfaces =~= Self::type_error_model().interfaces);
        r
    }

    /// The engine's `ArgumentCountError` class.
    pub open spec fn argument_count_error_model() -> ClassModel {
        ClassModel {
            id: 10,
            name: "ArgumentCountError"@,
            flags: BUILTIN_CLASS_FLAGS,
            parent: Some(Box::new(Self::type_error_model())),
            interfaces: seq![Self::throwable_model()],
        }
    }

    /// The engine's `ArgumentCountError` class.
    pub fn argument_count_error() -> (r: ClassEntry)
        ensures
            r@ == Self::argument_count_error_model(),
    {
        let r = ClassEntry::new(10, "ArgumentCountError", ClassFlags::from_bits_retain(BUILTIN_CLASS_FLAGS), Some(Self::type_error()), vec![Self::throwable()]);
        assert(r@.interfaces =~= Self::argument_count_error_model().interfaces);
        r
    }

    /// The engine's `ValueError` class.
    pub open spec fn value_error_model() -> ClassModel {
        ClassModel {
            id: 11,
            name: "ValueError"@,
            flags: BUILTIN_CLASS_FLAGS,
            parent: Some(Box::new(Self::error_model())),
            interfaces: seq![Self::throwable_model()],
        }
    }

    /// The engine's `ValueError` class.
    pub fn value_error() -> (r: ClassEntry)
        ensures
            r@ == Self::value_error_model(),
    {
        let r = ClassEntry::new(11, "ValueError", ClassFlags::from_bits_retain(BUILTIN_CLASS_FLAGS), Some(Self::error()), vec![Self::throwable()]);
        assert(r@.interfaces =~= Self::value_error_model().interfaces);
        r
    }

    /// The engine's `ArithmeticError` class.
    pub open spec fn arithmetic_error_model() -> ClassModel {
        ClassModel {
            id: 12,
            name: "ArithmeticError"@,
            flags: BUILTIN_CLASS_FLAGS,
            parent: Some(Box::new(Self::error_model())),
            interfaces: seq![Self::throwable_model()],
        }
    }

    /// The engine's `ArithmeticError` class.
    pub fn arithmetic_error() -> (r: ClassEntry)
        ensures
            r@ == Self::arithmetic_error_model(),
    {
        let r = ClassEntry::new(12, "ArithmeticError", ClassFlags::from_bits_retain(BUILTIN_CLASS_FLAGS), Some(Self::error()), vec![Self::throwable()]);
        assert(r@.interfaces =~= Self::arithmetic_error_model().interfaces);
        r
    }

    /// The engine's `DivisionByZeroError` class.
    pub open spec fn division_by_zero_error_model() -> ClassModel {
        ClassModel {
            id: 13,
            name: "DivisionByZeroError"@,
            flags: BUILTIN_CLASS_FLAGS,
            parent: Some(Box::new(Self::arithmetic_error_model())),
            interfaces: seq![Self::throwable_model()],
        }
    }

    /// The engine's `DivisionByZeroError` class.
    pub fn division_by_zero_error() -> (r: ClassEntry)
        ensures
            r@ == Self::division_by_zero_error_model(),
    {
        let r = ClassEntry::new(13, "DivisionByZeroError", ClassFlags::from_bits_retain(BUILTIN_CLASS_FLAGS), Some(Self::arithmetic_error()), vec![Self::throwable()]);
        assert(r@.interfaces =~= Self::division_by_zero_error_model().interfaces);
        r
    }

    /// The engine's `UnhandledMatchError` class.
    pub open spec fn unhandled_match_error_model() -> ClassModel {
        ClassModel {
            id: 14,
            name: "UnhandledMatchError"@,
            flags: BUILTIN_CLASS_FLAGS,
            parent: Some(Box::new(Self::error_model())),
            interfaces: seq![Self::throwable_model()],
        }
    }

    /// The engine's `UnhandledMatchError` class.
    pub fn unhandled_match_error() -> (r: ClassEntry)
        ensures
            r@ == Self::unhandled_match_error_model(),
    {
        let r = ClassEntry::new(14, "UnhandledMatchError", ClassFlags::from_bits_retain(BUILTIN_CLASS_FLAGS), Some(Self::error()), vec![Self::throwable()]);
        assert(r@.interfaces =~= Self::unhandled_match_error_model().interfaces);
        r
    }
}

impl ClassEntry {
    /// The engine's `IteratorAggregate` interface.
    pub open spec fn aggregate_model() -> ClassModel {
        ClassModel {
            id: 15,
            name: "IteratorAggregate"@,
            flags: BUILTIN_INTERFACE_FLAGS,
            parent: None,
            interfaces: seq![Self::traversable_model()],
        }
    }

    /// The engine's `IteratorAggregate` interface.
    pub fn aggregate() -> (r: ClassEntry)
        ensures
            r@ == Self::aggregate_model(),
    {
        let r = ClassEntry::new(15, "IteratorAggregate", ClassFlags::from_bits_retain(BUILTIN_INTERFACE_FLAGS), None, vec![Self::traversable()]);
        assert(r@.interfaces =~= Self::aggregate_model().interfaces);
        r
    }

    /// The engine's `Iterator` interface.
    pub open spec fn iterator_model() -> ClassModel {
        ClassModel {
            id: 16,
            name: "Iterator"@,
            flags: BUILTIN_INTERFACE_FLAGS,
            parent: None,
            interfaces: seq![Self::traversable_model()],
        }
    }

    /// The engine's `Iterator` interface.
    pub fn iterator() -> (r: ClassEntry)
        ensures
            r@ == Self::iterator_model(),
    {
        let r = ClassEntry::new(16, "Iterator", ClassFlags::from_bits_retain(BUILTIN_INTERFACE_FLAGS), None, vec![Self::traversable()]);
        assert(r@.interfaces =~= Self::iterator_model().interfaces);
        r
    }

    /// The engine's `ArrayAccess` interface.
    pub open spec fn arrayaccess_model() -> ClassModel {
        ClassModel {
            id: 17,
            name: "ArrayAccess"@,
            flags: BUILTIN_INTERFACE_FLAGS,
            parent: None,
            interfaces: Seq::empty(),
        }
    }

    /// The engine's `ArrayAccess` interface.
    pub fn arrayaccess() -> (r: ClassEntry)
        ensures
            r@ == Self::arrayaccess_model(),
    {
        let r = ClassEntry::new(17, "ArrayAccess", ClassFlags::from_bits_retain(BUILTIN_INTERFACE_FLAGS), None, Vec::new());
        assert(r@.interfaces =~= Self::arrayaccess_model().interfaces);
        r
    }

    /// The engine's `Serializable` interface.
    pub open spec fn serializable_model() -> ClassModel {
        ClassModel {
            id: 18,
            name: "Serializable"@,
            flags: BUILTIN_INTERFACE_FLAGS,
            parent: None,
            interfaces: Seq::empty(),
        }
    }

    /// The engine's `Serializable` interface.
    pub fn serializable() -> (r: ClassEntry)
        ensures
            r@ == Self::serializable_model(),
    {
        let r = ClassEntry::new(18, "Serializable", ClassFlags::from_bits_retain(BUILTIN_INTERFACE_FLAGS), None, Vec::new());
        assert(r@.interfaces =~= Self::serializable_model().interfaces);
        r
    }

    /// The engine's `Countable` interface.
    pub open spec fn countable_model() -> ClassModel {
        ClassModel {
            id: 19,
            name: "Countable"@,
            flags: BUILTIN_INTERFACE_FLAGS,
            parent: None,
            interfaces: Seq::empty(),
        }
    }

    /// The engine's `Countable` interface.
    pub fn countable() -> (r: ClassEntry)
        ensures
            r@ == Self::countable_model(),
    {
        let r = ClassEntry::new(19, "Countable", ClassFlags::from_bits_retain(BUILTIN_INTERFACE_FLAGS), None, Vec::new());
        assert(r@.interfaces =~= Self::countable_model().interfaces);
        r
    }

    /// The engine's `Stringable` interface.
    pub open spec fn stringable_model() -> ClassModel {
        ClassModel {
            id: 20,
            name: "Stringable"@,
            flags: BUILTIN_INTERFACE_FLAGS,
            parent: None,
            interfaces: Seq::empty(),
        }
    }

    /// The engine's `Stringable` interface.
    pub fn stringable() -> (r: ClassEntry)
        ensures
            r@ == Self::stringable_model(),
    {
        let r = ClassEntry::new(20, "Stringable", ClassFlags::from_bits_retain(BUILTIN_INTERFACE_FLAGS), None, Vec::new());
        assert(r@.interfaces =~= Self::stringable_model().interfaces);
        r
    }

}

/// What the library records about a PHP class bound to a Rust type: the
/// class entry, once the class has been registered.
#[derive(Debug)]
pub struct ClassMetadata {
    ce: Option<ClassEntry>,
}

impl ClassMetadata {
    /// The class entry stored, if any.
    pub closed spec fn stored(&self) -> Option<ClassModel> {
        match &self.ce {
            Some(c) => Some(c@),
            None => None,
        }
    }

    /// Creates metadata with no class entry stored.
    pub fn new() -> (r: ClassMetadata)
        ensures
            r.stored() is None,
    {
        ClassMetadata { ce: None }
    }

    /// Checks if the class entry has been stored.
    pub fn has_ce(&self) -> (r: bool)
        ensures
            r == self.stored() is Some,
    {
        self.ce.is_some()
    }

    /// Returns the stored class entry; one must have been stored.
    pub fn ce(&self) -> (r: &ClassEntry)
        requires
            self.stored() is Some,
        ensures
            self.stored() == Some(r@),
    {
        self.ce.as_ref().unwrap()
    }

    /// Stores the class entry; none may have been stored before, as the
    /// entry is set once.
    pub fn set_ce(&mut self, ce: ClassEntry)
        requires
            old(self).stored() is None,
        ensures
            final(self).stored() == Some(ce@),
    {
        self.ce = Some(ce);
    }
}

} // verus!
