//! The calls into `goblin`, each with the contract that the rest of the
//! library relies on. Nothing in this file is proved: the contracts say what
//! the source of `goblin` shows.

use vstd::prelude::*;
use crate::layout::{ElfHeader, SectionHeader};
use crate::symbol::RawSymbol;

verus! {

/// `goblin::elf::sym::Symtab`: a symbol table that reads its records from
/// the buffer as they are asked for. Nothing inside it is visible here.
#[verifier::external_type_specification]
#[verifier::external_body]
pub struct ExSymtab<'a>(goblin::elf::sym::Symtab<'a>);

/// `goblin::strtab::Strtab`: a string table over a range of the buffer.
/// Nothing inside it is visible here.
#[verifier::external_type_specification]
#[verifier::external_body]
pub struct ExStrtab<'a>(goblin::strtab::Strtab<'a>);

/// The header fields that `goblin` reads from the start of a buffer, or
/// `None` where it reads none.
pub uninterp spec fn header_fields(bytes: Seq<u8>) -> Option<ElfHeader>;

/// The section headers that `goblin` reads from a buffer for a table at
/// `offset` declared with `count` entries, or `None` where it reads none.
pub uninterp spec fn section_headers_at(
    bytes: Seq<u8>,
    offset: usize,
    count: usize,
    wide: bool,
    little_endian: bool,
) -> Option<Seq<SectionHeader>>;

/// The symbol records that `goblin` reads from a buffer for a table of
/// `count` records at `offset`, or `None` where it accepts no such table.
pub uninterp spec fn symbol_records_at(
    bytes: Seq<u8>,
    offset: usize,
    count: usize,
    wide: bool,
    little_endian: bool,
) -> Option<Seq<RawSymbol>>;

/// The texts that `goblin` finds in the `len` bytes of a buffer from
/// `offset` on, by the offset inside that range at which each can be
/// asked for, or `None` where it accepts no such table.
pub uninterp spec fn string_entries_at(bytes: Seq<u8>, offset: usize, len: usize) -> Option<
    Map<usize, Seq<char>>,
>;

/// The records that a symbol table of `goblin` holds, in table order.
pub uninterp spec fn symtab_records(table: &goblin::elf::sym::Symtab) -> Seq<RawSymbol>;

/// The texts that a string table of `goblin` gives out, by offset.
pub uninterp spec fn strtab_entries(table: &goblin::strtab::Strtab) -> Map<usize, Seq<char>>;

/// `goblin::elf::Elf::parse_header`: reads the file header at the start of
/// the buffer. The result is a function of the bytes alone; a failure of
/// any kind is handed on as `None`.
#[verifier::external_body]
pub(crate) fn read_header(bytes: &[u8]) -> (r: Option<ElfHeader>)
    ensures
        r == header_fields(bytes@),
{
    match goblin::elf::Elf::parse_header(bytes) {
        Ok(h) => Some(
            ElfHeader {
                section_offset: h.e_shoff,
                section_entry_size: h.e_shentsize,
                section_count: h.e_shnum,
                section_names_index: h.e_shstrndx,
            },
        ),
        Err(_) => None,
    }
}

/// `goblin::elf::SectionHeader::parse`: reads the section header table.
/// The result is a function of the arguments alone; a failure of any kind
/// is handed on as `None`.
#[verifier::external_body]
pub(crate) fn read_section_headers(
    bytes: &[u8],
    offset: usize,
    count: usize,
    wide: bool,
    little_endian: bool,
) -> (r: Option<Vec<SectionHeader>>)
    ensures
        r is Some <==> section_headers_at(bytes@, offset, count, wide, little_endian) is Some,
        r is Some ==> r->Some_0@ == section_headers_at(
            bytes@,
            offset,
            count,
            wide,
            little_endian,
        )->Some_0,
{
    let container = if wide { goblin::container::Container::Big } else { goblin::container::Container::Little };
    let ctx = goblin::container::Ctx::new(container, goblin::container::Endian::from(little_endian));
    match goblin::elf::SectionHeader::parse(bytes, offset, count, ctx) {
        Ok(list) => Some(list.iter().map(|s| SectionHeader {
            name_offset: s.sh_name,
            kind: s.sh_type,
            link: s.sh_link,
            offset: s.sh_offset,
            size: s.sh_size,
            entry_size: s.sh_entsize,
        }).collect()),
        Err(_) => None,
    }
}

/// `goblin::elf::Symtab::parse`: opens a table of `count` symbol records
/// at `offset`. Whether it opens one, and the records the table then
/// holds, are functions of the arguments alone. A table that it opens
/// holds `count` records.
#[verifier::external_body]
pub(crate) fn read_symbol_table<'a>(
    bytes: &'a [u8],
    offset: usize,
    count: usize,
    wide: bool,
    little_endian: bool,
) -> (r: Option<goblin::elf::sym::Symtab<'a>>)
    ensures
        r is Some <==> symbol_records_at(bytes@, offset, count, wide, little_endian) is Some,
        r is Some ==> symtab_records(&r->Some_0) == symbol_records_at(
            bytes@,
            offset,
            count,
            wide,
            little_endian,
        )->Some_0,
        r is Some ==> symtab_records(&r->Some_0).len() == count,
{
    let container = if wide { goblin::container::Container::Big } else { goblin::container::Container::Little };
    let ctx = goblin::container::Ctx::new(container, goblin::container::Endian::from(little_endian));
    goblin::elf::Symtab::parse(bytes, offset, count, ctx).ok()
}

/// `goblin::elf::Symtab::len`: the number of records in the table.
#[verifier::external_body]
pub(crate) fn symbol_count(table: &goblin::elf::sym::Symtab) -> (n: usize)
    ensures
        n == symtab_records(table).len(),
{
    table.len()
}

/// `goblin::elf::Symtab::get`: the record at `index`, or `None` where the
/// table has no such record.
#[verifier::external_body]
pub(crate) fn symbol_record(table: &goblin::elf::sym::Symtab, index: usize) -> (r: Option<RawSymbol>)
    ensures
        r == if index < symtab_records(table).len() {
            Some(symtab_records(table)[index as int])
        } else {
            None
        },
{
    table.get(index).map(|s| RawSymbol {
        name_offset: s.st_name,
        info: s.st_info,
        other: s.st_other,
        section_index: s.st_shndx,
        value: s.st_value,
        size: s.st_size,
    })
}

/// `goblin::strtab::Strtab::parse` with the null byte as delimiter: opens
/// the string table that lies in `len` bytes from `offset` on. Whether it
/// opens one, and the texts the table then gives out, are functions of the
/// arguments alone.
#[verifier::external_body]
pub(crate) fn read_string_table<'a>(bytes: &'a [u8], offset: usize, len: usize) -> (r: Option<
    goblin::strtab::Strtab<'a>,
>)
    ensures
        r is Some <==> string_entries_at(bytes@, offset, len) is Some,
        r is Some ==> strtab_entries(&r->Some_0) == string_entries_at(bytes@, offset, len)->Some_0,
{
    goblin::strtab::Strtab::parse(bytes, offset, len, 0x0).ok()
}

/// `goblin::strtab::Strtab::get_at`: the text that starts at `offset`, or
/// `None` where the table gives out none for that offset.
#[verifier::external_body]
pub(crate) fn string_at<'a>(table: &goblin::strtab::Strtab<'a>, offset: usize) -> (r: Option<&'a str>)
    ensures
        r is Some <==> strtab_entries(table).dom().contains(offset),
        r is Some ==> r->Some_0@ == strtab_entries(table)[offset],
{
    table.get_at(offset)
}

} // verus!
