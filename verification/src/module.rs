//! Module entries and the builder that produces the entry of a PHP
//! extension.

use vstd::prelude::*;

use crate::function::{c_text, end_entry, FunctionEntry, FunctionEntryModel};

verus! {

/// `ZEND_MODULE_API_NO` of the engine the entries are built for.
pub const ZEND_MODULE_API_NO: u32 = 20200930;
/// `ZEND_DEBUG`: the engine is a release build.
pub const ZEND_DEBUG: u8 = 0;
/// `USING_ZTS`: the engine is not thread safe.
pub const USING_ZTS: u8 = 0;
/// Size in bytes of the engine's module entry record.
pub const MODULE_ENTRY_SIZE: u16 = 168;

/// The address of a function called when the extension starts up or shuts
/// down.
pub type StartupShutdownFunc = usize;
/// The address of the function called by `phpinfo()`.
pub type InfoFunc = usize;

/// A Zend module entry.
#[derive(Debug)]
pub struct ModuleEntry {
    pub size: u16,
    pub zend_api: u32,
    pub zend_debug: u8,
    pub zts: u8,
    pub name: String,
    pub functions: Vec<FunctionEntry>,
    pub module_startup_func: Option<StartupShutdownFunc>,
    pub module_shutdown_func: Option<StartupShutdownFunc>,
    pub request_startup_func: Option<StartupShutdownFunc>,
    pub request_shutdown_func: Option<StartupShutdownFunc>,
    pub info_func: Option<InfoFunc>,
    pub version: String,
    pub globals_size: usize,
    pub module_started: i32,
    pub type_: u8,
    pub module_number: i32,
    pub build_id: String,
}

/// Abstract module entry.
pub struct ModuleEntryModel {
    pub size: u16,
    pub zend_api: u32,
    pub zend_debug: u8,
    pub zts: u8,
    pub name: Seq<char>,
    pub functions: Seq<FunctionEntryModel>,
    pub module_startup_func: Option<StartupShutdownFunc>,
    pub module_shutdown_func: Option<StartupShutdownFunc>,
    pub request_startup_func: Option<StartupShutdownFunc>,
    pub request_shutdown_func: Option<StartupShutdownFunc>,
    pub info_func: Option<InfoFunc>,
    pub version: Seq<char>,
    pub globals_size: usize,
    pub module_started: i32,
    pub type_: u8,
    pub module_number: i32,
    pub build_id: Seq<char>,
}

impl View for ModuleEntry {
    type V = ModuleEntryModel;

    open spec fn view(&self) -> ModuleEntryModel {
        ModuleEntryModel {
            size: self.size,
            zend_api: self.zend_api,
            zend_debug: self.zend_debug,
            zts: self.zts,
            name: self.name@,
            functions: self.functions@.map_values(|f: FunctionEntry| f@),
            module_startup_func: self.module_startup_func,
            module_shutdown_func: self.module_shutdown_func,
            request_startup_func: self.request_startup_func,
            request_shutdown_func: self.request_shutdown_func,
            info_func: self.info_func,
            version: self.version@,
            globals_size: self.globals_size,
            module_started: self.module_started,
            type_: self.type_,
            module_number: self.module_number,
            build_id: self.build_id@,
        }
    }
}

/// The build id of the engine (`ZEND_MODULE_BUILD_ID`).
pub open spec fn spec_build_id() -> Seq<char> {
    seq!['A', 'P', 'I', '2', '0', '2', '0', '0', '9', '3', '0', ',', 'N', 'T', 'S']
}

/// The build id of the engine (`ZEND_MODULE_BUILD_ID`).
pub fn build_id() -> (r: String)
    ensures
        r@ == spec_build_id(),
{
    let s = "API20200930,NTS";
    proof {
        reveal_strlit("API20200930,NTS");
    }
    s.to_string()
}

impl ModuleEntry {
    /// Moves the module entry to the heap, handing its ownership over.
    pub fn into_raw(self) -> (r: Box<ModuleEntry>)
        ensures
            r@ == self@,
    {
        Box::new(self)
    }
}

/// Builds the entry of a Zend extension.
#[derive(Debug)]
pub struct ModuleBuilder {
    module: ModuleEntry,
    functions: Vec<FunctionEntry>,
}

/// Abstract module builder: the entry so far, and the functions added.
pub struct ModuleBuilderModel {
    pub module: ModuleEntryModel,
    pub functions: Seq<FunctionEntryModel>,
}

impl View for ModuleBuilder {
    type V = ModuleBuilderModel;

    closed spec fn view(&self) -> ModuleBuilderModel {
        ModuleBuilderModel {
            module: self.module@,
            functions: self.functions@.map_values(|f: FunctionEntry| f@),
        }
    }
}

/// The builder after a function is added to it.
pub open spec fn with_function(b: ModuleBuilderModel, f: FunctionEntryModel) -> ModuleBuilderModel {
    ModuleBuilderModel { functions: b.functions.push(f), ..b }
}

/// The builder after the functions are added to it one by one, in order.
pub open spec fn with_functions(b: ModuleBuilderModel, fs: Seq<FunctionEntryModel>) -> ModuleBuilderModel
    decreases fs.len(),
{
    if fs.len() == 0 {
        b
    } else {
        with_function(with_functions(b, fs.drop_last()), fs.last())
    }
}

/// The module entry a builder builds: the functions added, closed by the
/// entry that ends a function list.
pub open spec fn built(b: ModuleBuilderModel) -> ModuleEntryModel {
    ModuleEntryModel { functions: b.functions.push(end_entry()), ..b.module }
}

/// Building after functions are added one by one lists the functions the
/// builder held, then those added in the order they were added, then the
/// entry that ends the list; the rest of the entry is the builder's.
pub proof fn law_build_lists_functions(b: ModuleBuilderModel, fs: Seq<FunctionEntryModel>)
    ensures
        built(with_functions(b, fs)) == (ModuleEntryModel {
            functions: b.functions + fs.push(end_entry()),
            ..b.module
        }),
    decreases fs.len(),
{
    if fs.len() == 0 {
        assert(b.functions + fs.push(end_entry()) =~= b.functions.push(end_entry()));
    } else {
        law_build_lists_functions(b, fs.drop_last());
        let prev = with_functions(b, fs.drop_last());
        assert(prev.functions =~= b.functions + fs.drop_last()) by {
            assert(built(prev).functions =~= b.functions + fs.drop_last().push(end_entry()));
            assert(prev.functions =~= built(prev).functions.drop_last());
        }
        assert(with_functions(b, fs).functions.push(end_entry()) =~= b.functions + fs.push(
            end_entry(),
        ));
    }
}

impl ModuleBuilder {
    /// Creates a new module builder with a given name and version.
    pub fn new(name: &str, version: &str) -> (r: ModuleBuilder)
        requires
            c_text(name@),
            c_text(version@),
        ensures
            r@.functions == Seq::<FunctionEntryModel>::empty(),
            r@.module == (ModuleEntryModel {
                size: MODULE_ENTRY_SIZE,
                zend_api: ZEND_MODULE_API_NO,
                zend_debug: ZEND_DEBUG,
                zts: USING_ZTS,
                name: name@,
                functions: Seq::empty(),
                module_startup_func: None,
                module_shutdown_func: None,
                request_startup_func: None,
                request_shutdown_func: None,
                info_func: None,
                version: version@,
                globals_size: 0,
                module_started: 0,
                type_: 0,
                module_number: 0,
                build_id: spec_build_id(),
            }),
    {
        let r = ModuleBuilder {
            module: ModuleEntry {
                size: MODULE_ENTRY_SIZE,
                zend_api: ZEND_MODULE_API_NO,
                zend_debug: ZEND_DEBUG,
                zts: USING_ZTS,
                name: name.to_string(),
                functions: Vec::new(),
                module_startup_func: None,
                module_shutdown_func: None,
                request_startup_func: None,
                request_shutdown_func: None,
                info_func: None,
                version: version.to_string(),
                globals_size: 0,
                module_started: 0,
                type_: 0,
                module_number: 0,
                build_id: build_id(),
            },
            functions: Vec::new(),
        };
        assert(r@.functions =~= Seq::<FunctionEntryModel>::empty());
        assert(r@.module.functions =~= Seq::<FunctionEntryModel>::empty());
        r
    }

    /// Sets the function called when the extension starts up.
    pub fn startup_function(self, func: StartupShutdownFunc) -> (r: ModuleBuilder)
        ensures
            r@ == (ModuleBuilderModel {
                module: ModuleEntryModel { module_startup_func: Some(func), ..self@.module },
                ..self@
            }),
    {
        let ModuleBuilder { mut module, functions } = self;
        module.module_startup_func = Some(func);
        ModuleBuilder { module, functions }
    }

    /// Sets the function called when the extension shuts down.
    pub fn shutdown_function(self, func: StartupShutdownFunc) -> (r: ModuleBuilder)
        ensures
            r@ == (ModuleBuilderModel {
                module: ModuleEntryModel { module_shutdown_func: Some(func), ..self@.module },
                ..self@
            }),
    {
        let ModuleBuilder { mut module, functions } = self;
        module.module_shutdown_func = Some(func);
        ModuleBuilder { module, functions }
    }

    /// Sets the function called when a request starts up.
    pub fn request_startup_function(self, func: StartupShutdownFunc) -> (r: ModuleBuilder)
        ensures
            r@ == (ModuleBuilderModel {
                module: ModuleEntryModel { request_startup_func: Some(func), ..self@.module },
                ..self@
            }),
    {
        let ModuleBuilder { mut module, functions } = self;
        module.request_startup_func = Some(func);
        ModuleBuilder { module, functions }
    }

    /// Sets the function called when a request shuts down.
    pub fn request_shutdown_function(self, func: StartupShutdownFunc) -> (r: ModuleBuilder)
        ensures
            r@ == (ModuleBuilderModel {
                module: ModuleEntryModel { request_shutdown_func: Some(func), ..self@.module },
                ..self@
            }),
    {
        let ModuleBuilder { mut module, functions } = self;
        module.request_shutdown_func = Some(func);
        ModuleBuilder { module, functions }
    }

    /// Sets the function that reports information about the extension.
    pub fn info_function(self, func: InfoFunc) -> (r: ModuleBuilder)
        ensures
            r@ == (ModuleBuilderModel {
                module: ModuleEntryModel { info_func: Some(func), ..self@.module },
                ..self@
            }),
    {
        let ModuleBuilder { mut module, functions } = self;
        module.info_func = Some(func);
        ModuleBuilder { module, functions }
    }

    /// Adds a function to the extension.
    pub fn function(self, func: FunctionEntry) -> (r: ModuleBuilder)
        ensures
            r@ == with_function(self@, func@),
    {
        let ModuleBuilder { module, mut functions } = self;
        let ghost before = functions@.map_values(|f: FunctionEntry| f@);
        let ghost f = func@;
        functions.push(func);
        let r = ModuleBuilder { module, functions };
        assert(r@.functions =~= before.push(f));
        r
    }

    /// Builds the module entry: the functions added, closed by the entry that
    /// ends a function list.
    pub fn build(self) -> (r: ModuleEntry)
        ensures
            r@ == built(self@),
    {
        let ModuleBuilder { mut module, mut functions } = self;
        let ghost before = functions@.map_values(|f: FunctionEntry| f@);
        functions.push(FunctionEntry::end());
        module.functions = functions;
        assert(module@.functions =~= before.push(end_entry()));
        module
    }
}

} // verus!
