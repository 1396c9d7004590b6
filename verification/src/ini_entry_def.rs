//! Definitions of the ini settings an extension declares.

use vstd::prelude::*;
use vstd::utf8::*;

use crate::function::c_text;

verus! {

/// `ZEND_INI_USER`: the setting can be changed by user scripts.
pub const ZEND_INI_USER: u32 = 1;
/// `ZEND_INI_PERDIR`: the setting can be changed per directory.
pub const ZEND_INI_PERDIR: u32 = 2;
/// `ZEND_INI_SYSTEM`: the setting can be changed in the system ini files.
pub const ZEND_INI_SYSTEM: u32 = 4;
/// Union of every permission bit.
pub const ZEND_INI_ALL: u32 = 7;

/// Where an ini setting may be changed.
#[derive(Clone, Copy, Debug)]
pub struct IniEntryPermission {
    bits: u32,
}

impl View for IniEntryPermission {
    type V = u32;

    closed spec fn view(&self) -> u32 {
        self.bits
    }
}

impl IniEntryPermission {
    /// The permission with the known bits of `bits`.
    pub fn from_bits_truncate(bits: u32) -> (r: IniEntryPermission)
        ensures
            r@ == bits & ZEND_INI_ALL,
    {
        IniEntryPermission { bits: bits & ZEND_INI_ALL }
    }

    /// The bits of the permission.
    pub fn bits(&self) -> (r: u32)
        ensures
            r == self@,
    {
        self.bits
    }
}

/// The definition of an ini setting.
#[derive(Debug)]
pub struct IniEntryDef {
    pub name: Option<String>,
    pub value: Option<String>,
    pub modifiable: u8,
    pub name_length: u16,
    pub value_length: u32,
}

/// Abstract ini definition.
pub struct IniEntryDefModel {
    pub name: Option<Seq<char>>,
    pub value: Option<Seq<char>>,
    pub modifiable: u8,
    pub name_length: u16,
    pub value_length: u32,
}

impl View for IniEntryDef {
    type V = IniEntryDefModel;

    open spec fn view(&self) -> IniEntryDefModel {
        IniEntryDefModel {
            name: match &self.name {
                Some(n) => Some(n@),
                None => None,
            },
            value: match &self.value {
                Some(v) => Some(v@),
                None => None,
            },
            modifiable: self.modifiable,
            name_length: self.name_length,
            value_length: self.value_length,
        }
    }
}

/// The definition that ends a list of ini definitions.
pub open spec fn end_ini_entry() -> IniEntryDefModel {
    IniEntryDefModel { name: None, value: None, modifiable: 0, name_length: 0, value_length: 0 }
}

impl IniEntryDef {
    /// Defines an ini setting with a name, a default value and where it may
    /// be changed. The lengths are those of the UTF-8 encodings, kept in the
    /// widths of the engine's fields.
    pub fn new(name: String, default_value: String, permission: IniEntryPermission) -> (r:
        IniEntryDef)
        requires
            c_text(name@),
            c_text(default_value@),
        ensures
            r@ == (IniEntryDefModel {
                name: Some(name@),
                value: Some(default_value@),
                modifiable: permission@ as u8,
                name_length: r@.name_length,
                value_length: r@.value_length,
            }),
            r@.name_length as int == encode_utf8(name@).len() % 65536,
            r@.value_length as int == encode_utf8(default_value@).len() % 4294967296,
    {
        let mut template = IniEntryDef::end();
        let name_len = name.as_str().as_bytes().len();
        let value_len = default_value.as_str().as_bytes().len();
        assert((name_len as u16) as int == name_len % 65536) by (bit_vector);
        assert((value_len as u32) as u64 == (value_len as u64) % 0x1_0000_0000u64) by (bit_vector);
        template.name_length = name_len as u16;
        template.name = Some(name);
        template.value_length = value_len as u32;
        template.value = Some(default_value);
        template.modifiable = permission.bits() as u8;
        template
    }

    /// Returns the definition that ends a list of ini definitions.
    pub fn end() -> (r: IniEntryDef)
        ensures
            r@ == end_ini_entry(),
    {
        IniEntryDef { name: None, value: None, modifiable: 0, name_length: 0, value_length: 0 }
    }

    /// Moves the definition to the heap, handing its ownership over.
    pub fn into_raw(self) -> (r: Box<IniEntryDef>)
        ensures
            r@ == self@,
    {
        Box::new(self)
    }
}

} // verus!
