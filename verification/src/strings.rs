//! The string table: texts asked for by their offset.

use vstd::prelude::*;
use crate::error::ElfError;
use crate::reader::{read_string_table, strtab_entries, string_at, string_entries_at};

verus! {

/// The offsets that lie inside a table of `len` bytes.
pub open spec fn offsets_below(len: usize) -> Set<usize> {
    Set::new(|offset: usize| offset < len)
}

/// The table that a string section of `len` bytes at `offset` yields:
/// every text that can be asked for at an offset inside the section.
/// `None` where the section holds no string table.
pub open spec fn string_table_at(bytes: Seq<u8>, offset: usize, len: usize) -> Option<
    Map<usize, Seq<char>>,
> {
    match string_entries_at(bytes, offset, len) {
        Some(entries) => Some(entries.restrict(offsets_below(len))),
        None => None,
    }
}

/// A string table of an image. Its texts borrow from the image's buffer.
#[derive(Debug)]
pub struct StringTable<'a> {
    table: goblin::strtab::Strtab<'a>,
    len: usize,
}

impl<'a> View for StringTable<'a> {
    type V = Map<usize, Seq<char>>;

    /// The text at each offset at which the table has one.
    closed spec fn view(&self) -> Map<usize, Seq<char>> {
        strtab_entries(&self.table).restrict(offsets_below(self.len))
    }
}

impl<'a> StringTable<'a> {
    /// The length of the table in bytes.
    pub closed spec fn size(&self) -> usize {
        self.len
    }

    /// Every offset with a text lies inside the table.
    pub proof fn lemma_offsets_inside(&self)
        ensures
            forall|offset: usize| self@.dom().contains(offset) ==> offset < self.size(),
    {
    }

    /// Opens the string table that lies in `len` bytes of the buffer from
    /// `offset` on.
    pub fn open(bytes: &'a [u8], offset: usize, len: usize) -> (r: Option<StringTable<'a>>)
        ensures
            match string_table_at(bytes@, offset, len) {
                Some(texts) => r is Some && r->Some_0@ == texts && r->Some_0.size() == len,
                None => r is None,
            },
    {
        match read_string_table(bytes, offset, len) {
            Some(table) => Some(StringTable { table, len }),
            None => None,
        }
    }

    /// The text that starts at `offset`. An offset at or past the end of
    /// the table, or one at which the table has no text, is invalid.
    pub fn lookup(&self, offset: usize) -> (r: Result<&'a str, ElfError>)
        ensures
            match r {
                Ok(text) => self@.dom().contains(offset) && text@ == self@[offset],
                Err(e) => !self@.dom().contains(offset) && e == ElfError::InvalidOffset,
            },
    {
        if offset >= self.len {
            return Err(ElfError::InvalidOffset);
        }
        match string_at(&self.table, offset) {
            Some(text) => Ok(text),
            None => Err(ElfError::InvalidOffset),
        }
    }
}

/// `str::eq` of std: two string slices are equal exactly when they hold
/// the same characters.
#[verifier::external_body]
pub(crate) fn same_text(a: &str, b: &str) -> (r: bool)
    ensures
        r == (a@ == b@),
{
    a == b
}

} // verus!
