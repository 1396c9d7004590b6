//! A verified model of the data structures and builders that PHP extensions
//! written in Rust exchange with the Zend engine: zvals, hashtables, strings,
//! objects and class entries, argument parsers, function/class/module
//! builders, exceptions, binary packing and the property handlers of
//! classes bound to Rust types.
//!
//! The engine's storage is represented by plain Rust values, so every
//! operation below is specified over a mathematical model and proved.

pub mod args;
pub mod array;
pub mod array_key;
pub mod binary;
pub mod class;
pub mod class_builder;
pub mod conversions;
pub mod convert;
pub mod error;
pub mod exceptions;
pub mod execute_data;
pub mod flags;
pub mod function;
pub mod globals;
pub mod handlers;
pub mod ini_entry_def;
pub mod iterators;
pub mod linked_list;
pub mod module;
pub mod object;
pub mod pack;
pub mod pairs;
pub mod props;
pub mod rc;
pub mod string;
pub mod text;
pub mod zend_type;
pub mod zval;
