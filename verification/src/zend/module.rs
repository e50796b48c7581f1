//! What an extension tells the host at load time: its name and version, the
//! routines the host is to run at the turns of its life, and the functions
//! it offers with their arguments. The host reads all of this once.
//!
//! The routines themselves are the extension's; here they are values of
//! types that whoever builds the description chooses: `H` for the handler
//! of a function, `L` for a routine run at startup or shutdown, `I` for the
//! routine that prints the module's information.

use super::text::{decimal_u32, number_of};
use vstd::prelude::*;

verus! {

/// An entry of the list of modules that an extension depends on.
#[derive(Clone, Copy, Debug, PartialEq, Eq, Structural)]
pub struct ModuleDep {}

/// An entry of the list of settings that an extension declares.
#[derive(Clone, Copy, Debug, PartialEq, Eq, Structural)]
pub struct INI {}

/// Information about one argument of a function.
pub struct ArgInfo {
    pub name: String,
    pub class_name: Option<String>,
    pub type_hint: i8,
    pub pass_by_reference: i8,
    pub allow_null: i8,
    pub is_variadic: i8,
}

impl ArgInfo {
    /// An argument of the given name, of no class and no hinted type.
    pub fn new(name: &str, allow_null: i8, is_variadic: i8, by_reference: i8) -> (info: ArgInfo)
        ensures
            info.name@ == name@,
            info.class_name is None,
            info.type_hint == 0,
            info.pass_by_reference == by_reference,
            info.allow_null == allow_null,
            info.is_variadic == is_variadic,
    {
        ArgInfo {
            name: name.to_owned(),
            class_name: None,
            type_hint: 0,
            pass_by_reference: by_reference,
            allow_null,
            is_variadic,
        }
    }
}

/// A function that will be available inside the host. In the list that
/// the host reads, the entry without a name marks the end.
pub struct Function<H> {
    pub fname: Option<String>,
    pub handler: Option<H>,
    pub arg_info: Vec<ArgInfo>,
    pub num_args: u32,
    pub flags: u32,
}

impl<H> Function<H> {
    /// Whether this is the entry that marks the end of a list of functions.
    pub open spec fn is_end(&self) -> bool {
        &&& self.fname is None
        &&& self.handler is None
        &&& self.arg_info@.len() == 0
        &&& self.num_args == 0
        &&& self.flags == 0
    }

    /// The entry that marks the end of a list of functions.
    pub fn end() -> (function: Function<H>)
        ensures
            function.is_end(),
    {
        Function { fname: None, handler: None, arg_info: Vec::new(), num_args: 0, flags: 0 }
    }
}

/// How many arguments a function declares that has so many entries of
/// argument information: the first entry speaks of the function itself,
/// each of the others of one argument.
pub open spec fn declared_arguments(entries: nat) -> nat {
    if entries == 0 {
        0
    } else {
        (entries - 1) as nat
    }
}

/// Builds the description of a function, argument by argument.
pub struct FunctionBuilder<H> {
    pub function: Function<H>,
    pub args: Vec<ArgInfo>,
}

impl<H> FunctionBuilder<H> {
    /// Create a function with name.
    pub fn new(name: &str, handler: H) -> (builder: FunctionBuilder<H>)
        ensures
            builder.function.fname is Some,
            builder.function.fname->Some_0@ == name@,
            builder.function.handler == Some(handler),
            builder.function.arg_info@.len() == 0,
            builder.function.num_args == 0,
            builder.function.flags == 0,
            builder.args@.len() == 0,
    {
        FunctionBuilder {
            function: Function {
                fname: Some(name.to_owned()),
                handler: Some(handler),
                arg_info: Vec::new(),
                num_args: 0,
                flags: 0,
            },
            args: Vec::new(),
        }
    }

    /// Add an argument to the function.
    pub fn with_arg(self, arg: ArgInfo) -> (builder: FunctionBuilder<H>)
        ensures
            builder.function == self.function,
            builder.args@ == self.args@.push(arg),
    {
        let FunctionBuilder { function, mut args } = self;
        args.push(arg);
        FunctionBuilder { function, args }
    }

    /// Build the function. Without any entry of argument information the
    /// function is as it was made; else it gets the entries and declares
    /// one argument less than there are entries.
    pub fn build(self) -> (function: Function<H>)
        requires
            self.args@.len() <= u32::MAX,
        ensures
            function.fname == self.function.fname,
            function.handler == self.function.handler,
            function.flags == self.function.flags,
            self.args@.len() == 0 ==> function == self.function,
            self.args@.len() > 0 ==> function.arg_info@ == self.args@ && function.num_args
                == declared_arguments(self.args@.len()),
    {
        let FunctionBuilder { function, args } = self;
        if args.len() == 0 {
            return function;
        }
        let Function { fname, handler, arg_info: _, num_args: _, flags } = function;
        let num_args = args.len() as u32 - 1;
        Function { fname, handler, arg_info: args, num_args, flags }
    }
}

/// Module represents your extension: everything the host reads of it but
/// the size of the description, which is a matter of its layout.
pub struct Module<L, I, H> {
    pub zend_api: u32,
    pub zend_debug: u8,
    pub zts: u8,
    pub ini_entry: Option<INI>,
    pub deps: Option<ModuleDep>,
    pub name: String,
    pub functions: Vec<Function<H>>,
    pub module_startup_func: Option<L>,
    pub module_shutdown_func: Option<L>,
    pub request_startup_func: Option<L>,
    pub request_shutdown_func: Option<L>,
    pub info_func: Option<I>,
    pub version: String,
    pub globals_size: usize,
    pub globals_ptr: usize,
    pub globals_ctor: Option<usize>,
    pub globals_dtor: Option<usize>,
    pub post_deactivate_func: Option<usize>,
    pub module_started: i32,
    pub type_: u8,
    pub handle: usize,
    pub module_number: i32,
    pub build_id: String,
}

impl<L, I, H> Module<L, I, H> {
    /// Whether the module is as a builder first makes it: it has its two
    /// numbers and two names, and everything else is nothing.
    pub open spec fn is_fresh(&self) -> bool {
        &&& self.zend_debug == 0
        &&& self.zts == 0
        &&& self.ini_entry is None
        &&& self.deps is None
        &&& self.functions@.len() == 0
        &&& self.module_startup_func is None
        &&& self.module_shutdown_func is None
        &&& self.request_startup_func is None
        &&& self.request_shutdown_func is None
        &&& self.info_func is None
        &&& self.globals_size == 0
        &&& self.globals_ptr == 0
        &&& self.globals_ctor is None
        &&& self.globals_dtor is None
        &&& self.post_deactivate_func is None
        &&& self.module_started == 0
        &&& self.type_ == 0
        &&& self.handle == 0
        &&& self.module_number == 0
    }
}

/// Reads the version of the host's interface, which the host gives out as
/// a decimal number, from its text.
pub fn api_version(text: &str) -> (version: Option<u32>)
    ensures
        version == decimal_u32(text@),
{
    number_of(text)
}

/// Builds the description of a module.
pub struct ModuleBuilder<L, I, H> {
    pub module: Module<L, I, H>,
    pub functions: Vec<Function<H>>,
}

impl<L, I, H> ModuleBuilder<L, I, H> {
    /// Create a module with name and version, for the host whose interface
    /// version and build are given as the host gives them out, in text. The
    /// module has no routine and no function yet. Where the interface
    /// version is no number there is nothing to build.
    pub fn new(name: &str, version: &str, api_version: &str, build_id: &str) -> (made: Option<
        ModuleBuilder<L, I, H>,
    >)
        ensures
            made is Some <==> decimal_u32(api_version@) is Some,
            made matches Some(builder) ==> {
                &&& builder.module.name@ == name@
                &&& builder.module.version@ == version@
                &&& Some(builder.module.zend_api) == decimal_u32(api_version@)
                &&& builder.module.build_id@ == build_id@
                &&& builder.module.is_fresh()
                &&& builder.functions@.len() == 0
            },
    {
        match self::api_version(api_version) {
            Some(zend_api) => Some(
                ModuleBuilder {
                    module: Module {
                        zend_api,
                        zend_debug: 0,
                        zts: 0,
                        ini_entry: None,
                        deps: None,
                        name: name.to_owned(),
                        functions: Vec::new(),
                        module_startup_func: None,
                        module_shutdown_func: None,
                        request_startup_func: None,
                        request_shutdown_func: None,
                        info_func: None,
                        version: version.to_owned(),
                        globals_size: 0,
                        globals_ptr: 0,
                        globals_ctor: None,
                        globals_dtor: None,
                        post_deactivate_func: None,
                        module_started: 0,
                        type_: 0,
                        handle: 0,
                        module_number: 0,
                        build_id: build_id.to_owned(),
                    },
                    functions: Vec::new(),
                },
            ),
            None => None,
        }
    }

    /// Set a startup function.
    pub fn with_startup_function(self, func: L) -> (builder: ModuleBuilder<L, I, H>)
        ensures
            builder.module == (Module { module_startup_func: Some(func), ..self.module }),
            builder.functions == self.functions,
    {
        let ModuleBuilder { module, functions } = self;
        ModuleBuilder { module: Module { module_startup_func: Some(func), ..module }, functions }
    }

    /// Set a shutdown function.
    pub fn with_shutdown_function(self, func: L) -> (builder: ModuleBuilder<L, I, H>)
        ensures
            builder.module == (Module { module_shutdown_func: Some(func), ..self.module }),
            builder.functions == self.functions,
    {
        let ModuleBuilder { module, functions } = self;
        ModuleBuilder { module: Module { module_shutdown_func: Some(func), ..module }, functions }
    }

    /// Set a function to print information in the host's overview.
    pub fn with_info_function(self, func: I) -> (builder: ModuleBuilder<L, I, H>)
        ensures
            builder.module == (Module { info_func: Some(func), ..self.module }),
            builder.functions == self.functions,
    {
        let ModuleBuilder { module, functions } = self;
        ModuleBuilder { module: Module { info_func: Some(func), ..module }, functions }
    }

    /// Set functions that will be available from the host.
    pub fn with_function(self, function: Function<H>) -> (builder: ModuleBuilder<L, I, H>)
        ensures
            builder.module == self.module,
            builder.functions@ == self.functions@.push(function),
    {
        let ModuleBuilder { module, mut functions } = self;
        functions.push(function);
        ModuleBuilder { module, functions }
    }

    /// Build the module: it gets the functions in the order in which they
    /// were set, and behind them the entry that marks the end.
    pub fn build(self) -> (module: Module<L, I, H>)
        ensures
            module.functions@.len() == self.functions@.len() + 1,
            module.functions@.drop_last() == self.functions@,
            module.functions@.last().is_end(),
            module == (Module { functions: module.functions, ..self.module }),
    {
        let ModuleBuilder { module, mut functions } = self;
        functions.push(Function::end());
        assert(functions@.drop_last() =~= self.functions@);
        Module { functions, ..module }
    }
}

} // verus!
