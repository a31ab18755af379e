//! Where the symbol table and its string table lie in an image.

use vstd::prelude::*;
use crate::error::ElfError;
use crate::reader::{header_fields, read_header, read_section_headers, section_headers_at};

verus! {

/// Section type of a static symbol table.
pub const SHT_SYMTAB: u32 = 2;

/// Section type of a dynamic symbol table.
pub const SHT_DYNSYM: u32 = 11;

/// Length of the identification bytes that open every image.
pub const IDENT_LEN: usize = 16;

/// The fields of the file header that locate the section header table.
#[derive(Clone, Copy, Debug, PartialEq, Eq, Structural)]
pub struct ElfHeader {
    /// File offset of the section header table.
    pub section_offset: u64,
    /// Size of one section header.
    pub section_entry_size: u16,
    /// Number of section headers.
    pub section_count: u16,
    /// Index of the section that holds the section names.
    pub section_names_index: u16,
}

/// One section header.
#[derive(Clone, Copy, Debug, PartialEq, Eq, Structural)]
pub struct SectionHeader {
    /// Offset of the section's name in the section name table.
    pub name_offset: usize,
    /// Type tag.
    pub kind: u32,
    /// Index of an associated section; for a symbol table, its string table.
    pub link: u32,
    /// File offset of the section's contents.
    pub offset: u64,
    /// Size of the contents in bytes.
    pub size: u64,
    /// Size of one entry, where the section holds a table.
    pub entry_size: u64,
}

/// Word size and byte order of an image, as its identification bytes give them.
#[derive(Clone, Copy, Debug, PartialEq, Eq, Structural)]
pub struct Ident {
    /// The image is in the 64-bit format; otherwise in the 32-bit format.
    pub wide: bool,
    /// Multi-byte fields are stored least significant byte first.
    pub little_endian: bool,
}

/// Where a symbol table and its string table lie in the buffer.
#[derive(Clone, Copy, Debug, PartialEq, Eq, Structural)]
pub struct TablePlace {
    /// File offset of the first symbol record.
    pub symbols_offset: usize,
    /// Number of symbol records.
    pub symbol_count: usize,
    /// File offset of the string table.
    pub strings_offset: usize,
    /// Length of the string table in bytes.
    pub strings_len: usize,
}

/// The first four bytes are the ELF magic number.
pub open spec fn has_magic(bytes: Seq<u8>) -> bool
    recommends
        bytes.len() >= 4,
{
    bytes[0] == 0x7f && bytes[1] == 0x45 && bytes[2] == 0x4c && bytes[3] == 0x46
}

/// What the identification bytes say: too short a buffer is truncated; a
/// wrong magic number, a class other than 32-bit (1) or 64-bit (2), or a
/// byte order other than little (1) or big (2) is a format error.
pub open spec fn ident_of(bytes: Seq<u8>) -> Result<Ident, ElfError> {
    if bytes.len() < IDENT_LEN {
        Err(ElfError::TruncatedError)
    } else if !has_magic(bytes) {
        Err(ElfError::FormatError)
    } else if bytes[4] != 1 && bytes[4] != 2 {
        Err(ElfError::FormatError)
    } else if bytes[5] != 1 && bytes[5] != 2 {
        Err(ElfError::FormatError)
    } else {
        Ok(Ident { wide: bytes[4] == 2, little_endian: bytes[5] == 1 })
    }
}

/// The section header table that the header declares ends inside a buffer
/// of `len` bytes.
pub open spec fn section_table_fits(header: ElfHeader, len: nat) -> bool {
    header.section_offset + header.section_count * header.section_entry_size <= len
}

/// The index of the last section of the given type, if there is one.
pub open spec fn last_of_kind(sections: Seq<SectionHeader>, kind: u32) -> Option<int>
    decreases sections.len(),
{
    if sections.len() == 0 {
        None
    } else if sections.last().kind == kind {
        Some(sections.len() - 1)
    } else {
        last_of_kind(sections.drop_last(), kind)
    }
}

/// The section to take symbols from: the static symbol table where there
/// is one, else the dynamic symbol table, else none.
pub open spec fn symbol_section(sections: Seq<SectionHeader>) -> Option<int> {
    match last_of_kind(sections, SHT_SYMTAB) {
        Some(i) => Some(i),
        None => last_of_kind(sections, SHT_DYNSYM),
    }
}

/// The number of records in a table section: its size divided by its
/// entry size, and none where the entry size is zero.
pub open spec fn record_count(section: SectionHeader) -> nat {
    if section.entry_size == 0 {
        0
    } else {
        (section.size / section.entry_size) as nat
    }
}

/// The contents of the section end inside a buffer of `len` bytes.
pub open spec fn section_fits(section: SectionHeader, len: nat) -> bool {
    section.offset + section.size <= len
}

/// Where the symbols of an image with these section headers lie, in a
/// buffer of `len` bytes. An image without a symbol table has no place and
/// is no error. A link that names no section is a format error; a symbol
/// table or string table that ends past the buffer is truncated.
pub open spec fn place_of(sections: Seq<SectionHeader>, len: nat) -> Result<
    Option<TablePlace>,
    ElfError,
> {
    match symbol_section(sections) {
        None => Ok(None),
        Some(i) => {
            let symbols = sections[i];
            if symbols.link >= sections.len() {
                Err(ElfError::FormatError)
            } else {
                let strings = sections[symbols.link as int];
                if !section_fits(symbols, len) || !section_fits(strings, len) {
                    Err(ElfError::TruncatedError)
                } else {
                    Ok(
                        Some(
                            TablePlace {
                                symbols_offset: symbols.offset as usize,
                                symbol_count: record_count(symbols) as usize,
                                strings_offset: strings.offset as usize,
                                strings_len: strings.size as usize,
                            },
                        ),
                    )
                }
            }
        },
    }
}

/// What the structure of a buffer says of its symbols: word size and byte
/// order together with the place of the tables, nothing for an image
/// without a symbol table, or the reason why the buffer is no image that
/// can be opened. A header that cannot be read in full, a section header
/// table that ends past the buffer, and section headers that cannot be
/// read in full are truncated.
pub open spec fn located(bytes: Seq<u8>) -> Result<Option<(Ident, TablePlace)>, ElfError> {
    match ident_of(bytes) {
        Err(e) => Err(e),
        Ok(ident) => match header_fields(bytes) {
            None => Err(ElfError::TruncatedError),
            Some(header) => if !section_table_fits(header, bytes.len()) {
                Err(ElfError::TruncatedError)
            } else {
                match section_headers_at(
                    bytes,
                    header.section_offset as usize,
                    header.section_count as usize,
                    ident.wide,
                    ident.little_endian,
                ) {
                    None => Err(ElfError::TruncatedError),
                    Some(sections) => match place_of(sections, bytes.len()) {
                        Err(e) => Err(e),
                        Ok(None) => Ok(None),
                        Ok(Some(place)) => Ok(Some((ident, place))),
                    },
                }
            },
        },
    }
}

/// `last_of_kind` names the greatest index of a section of that type.
pub proof fn lemma_last_of_kind(sections: Seq<SectionHeader>, kind: u32)
    ensures
        match last_of_kind(sections, kind) {
            Some(i) => 0 <= i < sections.len() && sections[i].kind == kind && forall|j: int|
                i < j < sections.len() ==> sections[j].kind != kind,
            None => forall|j: int| 0 <= j < sections.len() ==> sections[j].kind != kind,
        },
    decreases sections.len(),
{
    if sections.len() > 0 && sections.last().kind != kind {
        let rest = sections.drop_last();
        lemma_last_of_kind(rest, kind);
        assert forall|j: int| 0 <= j < rest.len() implies rest[j] == sections[j] by {}
        match last_of_kind(rest, kind) {
            Some(i) => {
                assert forall|j: int| i < j < sections.len() implies sections[j].kind != kind by {
                    if j < rest.len() {
                        assert(rest[j].kind != kind);
                    }
                }
            },
            None => {
                assert forall|j: int| 0 <= j < sections.len() implies sections[j].kind != kind by {
                    if j < rest.len() {
                        assert(rest[j].kind != kind);
                    }
                }
            },
        }
    }
}

/// Reads word size and byte order from the identification bytes.
pub fn check_ident(bytes: &[u8]) -> (r: Result<Ident, ElfError>)
    ensures
        r == ident_of(bytes@),
{
    if bytes.len() < IDENT_LEN {
        return Err(ElfError::TruncatedError);
    }
    if !(bytes[0] == 0x7f && bytes[1] == 0x45 && bytes[2] == 0x4c && bytes[3] == 0x46) {
        return Err(ElfError::FormatError);
    }
    let class: u8 = bytes[4];
    let order: u8 = bytes[5];
    if class != 1 && class != 2 {
        return Err(ElfError::FormatError);
    }
    if order != 1 && order != 2 {
        return Err(ElfError::FormatError);
    }
    Ok(Ident { wide: class == 2, little_endian: order == 1 })
}

/// Tells whether the declared section header table ends inside a buffer
/// of `len` bytes.
pub fn check_section_table(header: &ElfHeader, len: usize) -> (r: bool)
    ensures
        r == section_table_fits(*header, len as nat),
{
    let count: u64 = header.section_count as u64;
    let entry: u64 = header.section_entry_size as u64;
    assert(count * entry <= 0xffff * 0xffff) by (nonlinear_arith)
        requires
            count <= 0xffff,
            entry <= 0xffff,
    ;
    let table: u64 = count * entry;
    header.section_offset as u128 + table as u128 <= len as u128
}

/// Finds the last section of the given type.
pub fn find_last_of_kind(sections: &Vec<SectionHeader>, kind: u32) -> (r: Option<usize>)
    ensures
        match r {
            Some(i) => last_of_kind(sections@, kind) == Some(i as int),
            None => last_of_kind(sections@, kind) is None,
        },
{
    let mut i: usize = sections.len();
    proof {
        assert(sections@.take(sections.len() as int) == sections@);
    }
    while i > 0
        invariant
            i <= sections.len(),
            last_of_kind(sections@, kind) == last_of_kind(sections@.take(i as int), kind),
        decreases i,
    {
        proof {
            let prefix = sections@.take(i as int);
            assert(prefix.drop_last() == sections@.take(i - 1));
            assert(prefix.last() == sections@[i - 1]);
        }
        if sections[i - 1].kind == kind {
            return Some(i - 1);
        }
        i = i - 1;
    }
    None
}

/// Locates the symbol table and its string table among the sections.
pub fn locate(sections: &Vec<SectionHeader>, len: usize) -> (r: Result<Option<TablePlace>, ElfError>)
    ensures
        r == place_of(sections@, len as nat),
{
    let found = match find_last_of_kind(sections, SHT_SYMTAB) {
        Some(i) => Some(i),
        None => find_last_of_kind(sections, SHT_DYNSYM),
    };
    let index: usize = match found {
        None => {
            return Ok(None);
        },
        Some(i) => i,
    };
    proof {
        lemma_last_of_kind(sections@, SHT_SYMTAB);
        lemma_last_of_kind(sections@, SHT_DYNSYM);
    }
    let symbols = sections[index];
    if symbols.link as usize >= sections.len() {
        return Err(ElfError::FormatError);
    }
    let strings = sections[symbols.link as usize];
    if !fits(&symbols, len) || !fits(&strings, len) {
        return Err(ElfError::TruncatedError);
    }
    let count: u64 = if symbols.entry_size == 0 {
        0
    } else {
        symbols.size / symbols.entry_size
    };
    Ok(
        Some(
            TablePlace {
                symbols_offset: symbols.offset as usize,
                symbol_count: count as usize,
                strings_offset: strings.offset as usize,
                strings_len: strings.size as usize,
            },
        ),
    )
}

/// Reads the structure of a buffer as far as the symbols need it:
/// identification bytes, file header, section headers, and among them the
/// symbol table and its string table.
pub fn find_tables(bytes: &[u8]) -> (r: Result<Option<(Ident, TablePlace)>, ElfError>)
    ensures
        r == located(bytes@),
{
    let ident = match check_ident(bytes) {
        Ok(ident) => ident,
        Err(e) => {
            return Err(e);
        },
    };
    let header = match read_header(bytes) {
        Some(header) => header,
        None => {
            return Err(ElfError::TruncatedError);
        },
    };
    if !check_section_table(&header, bytes.len()) {
        return Err(ElfError::TruncatedError);
    }
    let sections = match read_section_headers(
        bytes,
        header.section_offset as usize,
        header.section_count as usize,
        ident.wide,
        ident.little_endian,
    ) {
        Some(sections) => sections,
        None => {
            return Err(ElfError::TruncatedError);
        },
    };
    match locate(&sections, bytes.len()) {
        Ok(Some(place)) => Ok(Some((ident, place))),
        Ok(None) => Ok(None),
        Err(e) => Err(e),
    }
}

/// Tells whether the contents of a section end inside a buffer of `len`
/// bytes.
pub fn fits(section: &SectionHeader, len: usize) -> (r: bool)
    ensures
        r == section_fits(*section, len as nat),
{
    section.offset as u128 + section.size as u128 <= len as u128
}

} // verus!
