//! Decoded symbols and the decoding of the bit-packed record fields.

use vstd::prelude::*;
use crate::error::ElfError;
use crate::strings::StringTable;

verus! {

/// Linkage class of a symbol, from the high nibble of the info byte.
#[derive(Clone, Copy, Debug, PartialEq, Eq, Structural)]
pub enum Binding {
    Local,
    Global,
    Weak,
    /// A code this library has no name for, kept as it was read.
    Unknown(u8),
}

/// Kind of entity a symbol stands for, from the low nibble of the info byte.
#[derive(Clone, Copy, Debug, PartialEq, Eq, Structural)]
pub enum SymbolType {
    NoType,
    Object,
    Func,
    Section,
    File,
    Common,
    TLS,
    /// A code this library has no name for, kept as it was read.
    Unknown(u8),
}

/// Visibility of a symbol, from the low two bits of the other byte.
#[derive(Clone, Copy, Debug, PartialEq, Eq, Structural)]
pub enum Visibility {
    Default,
    Internal,
    Hidden,
    Protected,
}

/// One entry of a symbol table as it stands in the image, before decoding.
#[derive(Clone, Copy, Debug, PartialEq, Eq, Structural)]
pub struct RawSymbol {
    /// Offset of the name in the string table.
    pub name_offset: usize,
    /// Binding in the high nibble, type in the low nibble.
    pub info: u8,
    /// Visibility in the low two bits.
    pub other: u8,
    /// Index of the section the symbol belongs to.
    pub section_index: usize,
    /// Virtual address.
    pub value: u64,
    /// Size in bytes.
    pub size: u64,
}

/// A decoded symbol. Its name borrows from the buffer of the image.
#[derive(Clone, Copy, Debug, PartialEq, Eq)]
pub struct Symbol<'a> {
    /// Symbol's name
    pub name: &'a str,
    /// Symbol's binding
    pub binding: Binding,
    /// Symbol's type
    pub typ: SymbolType,
    /// Symbol's visibility
    pub visibility: Visibility,
    /// Symbol's virtual address
    pub address: u64,
    /// Symbol's size
    pub size: u64,
}

/// What a decoded symbol says, with its name as a sequence of characters.
pub struct SymbolView {
    pub name: Seq<char>,
    pub binding: Binding,
    pub typ: SymbolType,
    pub visibility: Visibility,
    pub address: u64,
    pub size: u64,
}

impl<'a> View for Symbol<'a> {
    type V = SymbolView;

    open spec fn view(&self) -> SymbolView {
        SymbolView {
            name: self.name@,
            binding: self.binding,
            typ: self.typ,
            visibility: self.visibility,
            address: self.address,
            size: self.size,
        }
    }
}

/// The binding that a four-bit code stands for.
pub open spec fn binding_of_code(code: u8) -> Binding {
    if code == 0 {
        Binding::Local
    } else if code == 1 {
        Binding::Global
    } else if code == 2 {
        Binding::Weak
    } else {
        Binding::Unknown(code)
    }
}

/// The symbol type that a four-bit code stands for.
pub open spec fn type_of_code(code: u8) -> SymbolType {
    if code == 0 {
        SymbolType::NoType
    } else if code == 1 {
        SymbolType::Object
    } else if code == 2 {
        SymbolType::Func
    } else if code == 3 {
        SymbolType::Section
    } else if code == 4 {
        SymbolType::File
    } else if code == 5 {
        SymbolType::Common
    } else if code == 6 {
        SymbolType::TLS
    } else {
        SymbolType::Unknown(code)
    }
}

/// The visibility that a two-bit code stands for.
pub open spec fn visibility_of_code(code: u8) -> Visibility
    recommends
        code < 4,
{
    if code == 0 {
        Visibility::Default
    } else if code == 1 {
        Visibility::Internal
    } else if code == 2 {
        Visibility::Hidden
    } else {
        Visibility::Protected
    }
}

/// The symbol that a record with the given name decodes to: binding from
/// the high nibble of the info byte, type from its low nibble, visibility
/// from the low two bits of the other byte, address and size as they are.
pub open spec fn decode_record(record: RawSymbol, name: Seq<char>) -> SymbolView {
    SymbolView {
        name,
        binding: binding_of_code(record.info / 16),
        typ: type_of_code(record.info % 16),
        visibility: visibility_of_code(record.other % 4),
        address: record.value,
        size: record.size,
    }
}

/// The symbol that a record decodes to against a string table, or
/// `InvalidOffset` where the table has no text at the record's name offset.
pub open spec fn decode_with(record: RawSymbol, names: Map<usize, Seq<char>>) -> Result<
    SymbolView,
    ElfError,
> {
    if names.dom().contains(record.name_offset) {
        Ok(decode_record(record, names[record.name_offset]))
    } else {
        Err(ElfError::InvalidOffset)
    }
}

impl<'a> Symbol<'a> {
    /// Decodes a record against its string table.
    pub fn new(strtab: &StringTable<'a>, sym: &RawSymbol) -> (r: Result<Symbol<'a>, ElfError>)
        ensures
            match decode_with(*sym, strtab@) {
                Ok(symbol) => r is Ok && r->Ok_0@ == symbol,
                Err(e) => r is Err && r->Err_0 == e,
            },
    {
        match Self::name(strtab, sym) {
            Ok(name) => Ok(Self::decode(sym, name)),
            Err(e) => Err(e),
        }
    }

    /// The name of a record: the text at its name offset in the string
    /// table. Offset 0 is an offset like any other.
    pub fn name(strtab: &StringTable<'a>, sym: &RawSymbol) -> (r: Result<&'a str, ElfError>)
        ensures
            match r {
                Ok(text) => strtab@.dom().contains(sym.name_offset) && text@ == strtab@[sym.name_offset],
                Err(e) => !strtab@.dom().contains(sym.name_offset) && e == ElfError::InvalidOffset,
            },
    {
        strtab.lookup(sym.name_offset)
    }

    /// Decodes a record whose name has been resolved.
    pub fn decode(sym: &RawSymbol, name: &'a str) -> (r: Symbol<'a>)
        ensures
            r@ == decode_record(*sym, name@),
    {
        Symbol {
            name,
            binding: Binding::from_info(sym.info),
            typ: SymbolType::from_info(sym.info),
            visibility: Visibility::from_other(sym.other),
            address: sym.value,
            size: sym.size,
        }
    }
}

impl Binding {
    /// Names a binding code; codes without a name are kept in `Unknown`.
    pub fn from_code(code: u8) -> (r: Binding)
        ensures
            r == binding_of_code(code),
    {
        match code {
            0 => Binding::Local,
            1 => Binding::Global,
            2 => Binding::Weak,
            _ => Binding::Unknown(code),
        }
    }

    /// The binding held in an info byte: its high four bits.
    pub fn from_info(info: u8) -> (r: Binding)
        ensures
            r == binding_of_code(info / 16),
    {
        assert(info >> 4 == info / 16) by (bit_vector);
        Binding::from_code(info >> 4)
    }
}

impl SymbolType {
    /// Names a type code; codes without a name are kept in `Unknown`.
    pub fn from_code(code: u8) -> (r: SymbolType)
        ensures
            r == type_of_code(code),
    {
        match code {
            0 => SymbolType::NoType,
            1 => SymbolType::Object,
            2 => SymbolType::Func,
            3 => SymbolType::Section,
            4 => SymbolType::File,
            5 => SymbolType::Common,
            6 => SymbolType::TLS,
            _ => SymbolType::Unknown(code),
        }
    }

    /// The type held in an info byte: its low four bits.
    pub fn from_info(info: u8) -> (r: SymbolType)
        ensures
            r == type_of_code(info % 16),
    {
        assert(info & 0x0F == info % 16) by (bit_vector);
        SymbolType::from_code(info & 0x0F)
    }
}

impl Visibility {
    /// The visibility held in an other byte: its low two bits.
    pub fn from_other(other: u8) -> (r: Visibility)
        ensures
            r == visibility_of_code(other % 4),
    {
        assert(other & 0x03 == other % 4) by (bit_vector);
        let code: u8 = other & 0x03;
        match code {
            0 => Visibility::Default,
            1 => Visibility::Internal,
            2 => Visibility::Hidden,
            _ => Visibility::Protected,
        }
    }
}

} // verus!
