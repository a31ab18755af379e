//! An opened image and the queries on its symbols.

use vstd::prelude::*;
use vstd::hash_map::StringHashMap;
use crate::error::ElfError;
use crate::layout::{find_tables, located, Ident, TablePlace};
use crate::reader::{
    read_symbol_table,
    symbol_count,
    symbol_record,
    symbol_records_at,
    symtab_records,
};
use crate::strings::{same_text, string_table_at, StringTable};
use crate::symbol::{decode_with, RawSymbol, Symbol, SymbolView};

verus! {

/// What an opened image holds: its symbol records in table order, and the
/// texts of the string table they name, by offset.
pub struct Contents {
    pub records: Seq<RawSymbol>,
    pub names: Map<usize, Seq<char>>,
}

/// The contents of an image without symbols.
pub open spec fn no_symbols() -> Contents {
    Contents { records: Seq::empty(), names: Map::empty() }
}

/// The contents of an image whose symbols lie at `place`. A table of no
/// records is empty whatever else the sections say. A symbol table that
/// cannot be read in full is truncated; a string section that holds no
/// string table is a format error.
pub open spec fn contents_at(bytes: Seq<u8>, ident: Ident, place: TablePlace) -> Result<
    Contents,
    ElfError,
> {
    if place.symbol_count == 0 {
        Ok(no_symbols())
    } else {
        match symbol_records_at(
            bytes,
            place.symbols_offset,
            place.symbol_count,
            ident.wide,
            ident.little_endian,
        ) {
            None => Err(ElfError::TruncatedError),
            Some(records) => match string_table_at(bytes, place.strings_offset, place.strings_len) {
                None => Err(ElfError::FormatError),
                Some(names) => Ok(Contents { records, names }),
            },
        }
    }
}

/// What opening a buffer yields: the contents of the image, or the reason
/// why the buffer is no image that can be opened.
pub open spec fn contents_of(bytes: Seq<u8>) -> Result<Contents, ElfError> {
    match located(bytes) {
        Err(e) => Err(e),
        Ok(None) => Ok(no_symbols()),
        Ok(Some((ident, place))) => contents_at(bytes, ident, place),
    }
}

/// The number of symbol records that the structure of a buffer declares:
/// the size of the symbol table divided by its entry size, and none where
/// the image has no symbol table.
pub open spec fn declared_count(bytes: Seq<u8>) -> nat {
    match located(bytes) {
        Ok(Some((_, place))) => place.symbol_count as nat,
        _ => 0,
    }
}

/// The symbol that the record at `index` decodes to, or the reason why it
/// does not decode.
pub open spec fn decoded_at(contents: Contents, index: int) -> Result<SymbolView, ElfError>
    recommends
        0 <= index < contents.records.len(),
{
    decode_with(contents.records[index], contents.names)
}

/// The symbols that the first `n` records decode to, in table order; a
/// record that does not decode is left out.
pub open spec fn decoded_prefix(contents: Contents, n: nat) -> Seq<SymbolView>
    recommends
        n <= contents.records.len(),
    decreases n,
{
    if n == 0 {
        Seq::empty()
    } else {
        let before = decoded_prefix(contents, (n - 1) as nat);
        match decoded_at(contents, n - 1) {
            Ok(symbol) => before.push(symbol),
            Err(_) => before,
        }
    }
}

/// All symbols of an image, in table order.
pub open spec fn decoded(contents: Contents) -> Seq<SymbolView> {
    decoded_prefix(contents, contents.records.len())
}

/// The record at `index` decodes and has the given name.
pub open spec fn matches_at(contents: Contents, name: Seq<char>, index: int) -> bool
    recommends
        0 <= index < contents.records.len(),
{
    match decoded_at(contents, index) {
        Ok(symbol) => symbol.name == name,
        Err(_) => false,
    }
}

/// The index of the first record at or after `start` that decodes and has
/// the given name.
pub open spec fn first_match_from(contents: Contents, name: Seq<char>, start: nat) -> Option<int>
    decreases contents.records.len() - start,
{
    if start >= contents.records.len() {
        None
    } else if matches_at(contents, name, start as int) {
        Some(start as int)
    } else {
        first_match_from(contents, name, start + 1)
    }
}

/// The index of the first record that decodes and has the given name.
pub open spec fn first_match(contents: Contents, name: Seq<char>) -> Option<int> {
    first_match_from(contents, name, 0)
}

/// The mapping from name to symbol that a sequence of symbols builds up
/// when each in turn is entered under its name: a later symbol replaces an
/// earlier one of the same name.
pub open spec fn map_of(symbols: Seq<SymbolView>) -> Map<Seq<char>, SymbolView>
    decreases symbols.len(),
{
    if symbols.len() == 0 {
        Map::empty()
    } else {
        map_of(symbols.drop_last()).insert(symbols.last().name, symbols.last())
    }
}

/// The views of a sequence of symbols.
pub open spec fn symbol_views(symbols: Seq<Symbol>) -> Seq<SymbolView> {
    symbols.map_values(|s: Symbol| s@)
}

/// The views of the symbols in a mapping.
pub open spec fn symbol_map_views(symbols: Map<Seq<char>, Symbol>) -> Map<Seq<char>, SymbolView> {
    symbols.map_values(|s: Symbol| s@)
}

/// The symbol table of an image together with its string table.
#[derive(Debug)]
struct SymbolSource<'a> {
    records: goblin::elf::sym::Symtab<'a>,
    strings: StringTable<'a>,
}

/// An opened ELF image. It borrows the buffer it was opened from and is
/// never changed.
#[derive(Debug)]
pub struct ELF<'a> {
    data_bytes: &'a Vec<u8>,
    source: Option<SymbolSource<'a>>,
}

/// The symbols of an image and how many records were left out because they
/// did not decode.
#[derive(Debug)]
pub struct DecodedSymbols<'a> {
    pub symbols: Vec<Symbol<'a>>,
    pub suppressed: usize,
}

/// The outcome of a lookup by name and how many records were examined for it.
#[derive(Clone, Copy, Debug)]
pub struct Lookup<'a> {
    pub symbol: Option<Symbol<'a>>,
    pub examined: usize,
}

impl<'a> View for ELF<'a> {
    type V = Contents;

    closed spec fn view(&self) -> Contents {
        match self.source {
            Some(source) => Contents { records: symtab_records(&source.records), names: source.strings@ },
            None => no_symbols(),
        }
    }
}

impl<'a> ELF<'a> {
    /// The buffer the image was opened from.
    pub closed spec fn bytes(&self) -> Seq<u8> {
        self.data_bytes@
    }

    /// The buffer the image was opened from.
    pub fn data(&self) -> (r: &'a Vec<u8>)
        ensures
            r@ == self.bytes(),
    {
        self.data_bytes
    }

    /// Load object binary data from a &Vec<u8>.
    pub fn new(data_bytes: &'a Vec<u8>) -> (r: Result<ELF<'a>, ElfError>)
        ensures
            match contents_of(data_bytes@) {
                Ok(contents) => r is Ok && r->Ok_0@ == contents && r->Ok_0.bytes() == data_bytes@,
                Err(e) => r is Err && r->Err_0 == e,
            },
            r is Ok ==> r->Ok_0@.records.len() == declared_count(data_bytes@),
    {
        let bytes: &'a [u8] = data_bytes.as_slice();
        let (ident, place) = match find_tables(bytes) {
            Ok(Some(found)) => found,
            Ok(None) => {
                return Ok(ELF { data_bytes, source: None });
            },
            Err(e) => {
                return Err(e);
            },
        };
        if place.symbol_count == 0 {
            return Ok(ELF { data_bytes, source: None });
        }
        let records = match read_symbol_table(
            bytes,
            place.symbols_offset,
            place.symbol_count,
            ident.wide,
            ident.little_endian,
        ) {
            Some(records) => records,
            None => {
                return Err(ElfError::TruncatedError);
            },
        };
        let strings = match StringTable::open(bytes, place.strings_offset, place.strings_len) {
            Some(strings) => strings,
            None => {
                return Err(ElfError::FormatError);
            },
        };
        Ok(ELF { data_bytes, source: Some(SymbolSource { records, strings }) })
    }

    /// Decodes every record in table order. A record that does not decode
    /// is left out and counted.
    pub fn decode_symbols(&self) -> (r: DecodedSymbols<'a>)
        ensures
            symbol_views(r.symbols@) == decoded(self@),
            r.suppressed == self@.records.len() - decoded(self@).len(),
    {
        let mut symbols: Vec<Symbol<'a>> = Vec::new();
        let mut suppressed: usize = 0;
        let source = match &self.source {
            Some(source) => source,
            None => {
                assert(symbol_views(symbols@) =~= decoded(self@));
                return DecodedSymbols { symbols, suppressed };
            },
        };
        let count: usize = symbol_count(&source.records);
        let mut i: usize = 0;
        assert(symbol_views(symbols@) =~= decoded_prefix(self@, 0));
        while i < count
            invariant
                i <= count,
                count == self@.records.len(),
                self@.records == symtab_records(&source.records),
                self@.names == source.strings@,
                symbol_views(symbols@) == decoded_prefix(self@, i as nat),
                suppressed + symbols.len() == i,
            decreases count - i,
        {
            let ghost before = symbols@;
            if let Some(record) = symbol_record(&source.records, i) {
                match Symbol::new(&source.strings, &record) {
                    Ok(symbol) => {
                        symbols.push(symbol);
                        assert(symbol_views(symbols@) =~= symbol_views(before).push(symbol@));
                    },
                    Err(_) => {
                        suppressed = suppressed + 1;
                    },
                }
            }
            i = i + 1;
        }
        DecodedSymbols { symbols, suppressed }
    }

    /// Get symbols returned encapsulated in Vec.
    pub fn symbol_to_vec(&self) -> (r: Vec<Symbol<'a>>)
        ensures
            symbol_views(r@) == decoded(self@),
    {
        self.decode_symbols().symbols
    }

    /// Get symbols returned encapsulated in a map.
    ///
    /// The key is symbol's name, the value is symbol structure. Where
    /// several symbols share a name, the last of them in table order is
    /// the one in the map.
    pub fn symbol_to_map(&self) -> (r: StringHashMap<Symbol<'a>>)
        ensures
            symbol_map_views(r@) == map_of(decoded(self@)),
    {
        let mut result: StringHashMap<Symbol<'a>> = StringHashMap::new();
        let source = match &self.source {
            Some(source) => source,
            None => {
                assert(symbol_map_views(result@) =~= map_of(decoded(self@)));
                return result;
            },
        };
        let count: usize = symbol_count(&source.records);
        let mut i: usize = 0;
        assert(symbol_map_views(result@) =~= map_of(decoded_prefix(self@, 0)));
        while i < count
            invariant
                i <= count,
                count == self@.records.len(),
                self@.records == symtab_records(&source.records),
                self@.names == source.strings@,
                symbol_map_views(result@) == map_of(decoded_prefix(self@, i as nat)),
            decreases count - i,
        {
            let ghost before = result@;
            let ghost prefix = decoded_prefix(self@, i as nat);
            if let Some(record) = symbol_record(&source.records, i) {
                if let Ok(symbol) = Symbol::new(&source.strings, &record) {
                    let key = symbol.name.to_owned();
                    result.insert(key, symbol);
                    proof {
                        let next = prefix.push(symbol@);
                        assert(next.drop_last() =~= prefix);
                        assert(next.last() == symbol@);
                        assert(symbol_map_views(result@) =~= symbol_map_views(before).insert(
                            symbol@.name,
                            symbol@,
                        ));
                    }
                }
            }
            i = i + 1;
        }
        result
    }

    /// Looks a symbol up by name, examining the records in table order and
    /// no further than the first that decodes and has the name. A record
    /// that does not decode matches no name.
    pub fn find_symbol(&self, name: &str) -> (r: Lookup<'a>)
        ensures
            match first_match(self@, name@) {
                Some(index) => r.symbol is Some && Ok::<SymbolView, ElfError>(r.symbol->Some_0@)
                    == decoded_at(self@, index) && r.examined == index + 1,
                None => r.symbol is None && r.examined == self@.records.len(),
            },
    {
        let source = match &self.source {
            Some(source) => source,
            None => {
                return Lookup { symbol: None, examined: 0 };
            },
        };
        let count: usize = symbol_count(&source.records);
        let mut i: usize = 0;
        while i < count
            invariant
                i <= count,
                count == self@.records.len(),
                self@.records == symtab_records(&source.records),
                self@.names == source.strings@,
                first_match(self@, name@) == first_match_from(self@, name@, i as nat),
            decreases count - i,
        {
            if let Some(record) = symbol_record(&source.records, i) {
                if let Ok(text) = Symbol::name(&source.strings, &record) {
                    if same_text(text, name) {
                        let symbol = Symbol::decode(&record, text);
                        return Lookup { symbol: Some(symbol), examined: i + 1 };
                    }
                }
            }
            i = i + 1;
        }
        Lookup { symbol: None, examined: count }
    }

    /// The first symbol in table order that has the given name, if any.
    pub fn get_symbol_by_name(&self, name: &str) -> (r: Option<Symbol<'a>>)
        ensures
            match first_match(self@, name@) {
                Some(index) => r is Some && Ok::<SymbolView, ElfError>(r->Some_0@) == decoded_at(
                    self@,
                    index,
                ),
                None => r is None,
            },
    {
        self.find_symbol(name).symbol
    }
}

} // verus!
