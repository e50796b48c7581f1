//! The host's value cell and everything that works on it.

pub mod cells;
pub mod convert;
pub mod from;
pub mod gc;
pub mod laws;
pub mod message;
pub mod methods;
pub mod module;
pub mod sequence;
pub mod table;
pub mod tags;
pub mod text;
pub mod types;
pub mod zval;

pub use self::cells::{create_zend_string, free_zend_string};
pub use self::convert::{Double, FromPhpZval, PhpTypeConversionError, ToPhpZval};
pub use self::gc::{check_gc_flags, release, should_free, Release, ZendRefCounted};
pub use self::methods::{
    add_zend_value_to_zval, parse_format, parse_parameter, php_return, ExecuteData,
    PhpParseParameters, MAX_PARAMETERS,
};
pub use self::module::{
    api_version, ArgInfo, Function, FunctionBuilder, Module, ModuleBuilder, ModuleDep, INI,
};
pub use self::table::create_zend_array;
pub use self::tags::{InternalPhpTypes, TypeInfoUnion};
pub use self::types::{Bucket, ZendArray, ZendString, ZendValue, Zval};
