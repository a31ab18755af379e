use elf_symbols::error::ElfError;
use elf_symbols::layout::{
    check_ident, check_section_table, find_last_of_kind, fits, locate, ElfHeader, Ident,
    SectionHeader, TablePlace, SHT_DYNSYM, SHT_SYMTAB,
};
use elf_symbols::strings::StringTable;
use elf_symbols::symbol::{Binding, RawSymbol, Symbol, SymbolType, Visibility};

fn section(kind: u32, link: u32, offset: u64, size: u64, entry_size: u64) -> SectionHeader {
    SectionHeader { name_offset: 0, kind, link, offset, size, entry_size }
}

#[test]
fn binding_codes() {
    assert_eq!(Binding::from_code(0), Binding::Local);
    assert_eq!(Binding::from_code(1), Binding::Global);
    assert_eq!(Binding::from_code(2), Binding::Weak);
    for code in 3u8..16 {
        assert_eq!(Binding::from_code(code), Binding::Unknown(code));
    }
}

#[test]
fn binding_is_the_high_nibble() {
    for info in 0u8..=255 {
        assert_eq!(Binding::from_info(info), Binding::from_code(info >> 4));
    }
    assert_eq!(Binding::from_info(0x0f), Binding::Local);
    assert_eq!(Binding::from_info(0x12), Binding::Global);
    assert_eq!(Binding::from_info(0x20), Binding::Weak);
    assert_eq!(Binding::from_info(0xf1), Binding::Unknown(15));
}

#[test]
fn type_codes() {
    assert_eq!(SymbolType::from_code(0), SymbolType::NoType);
    assert_eq!(SymbolType::from_code(1), SymbolType::Object);
    assert_eq!(SymbolType::from_code(2), SymbolType::Func);
    assert_eq!(SymbolType::from_code(3), SymbolType::Section);
    assert_eq!(SymbolType::from_code(4), SymbolType::File);
    assert_eq!(SymbolType::from_code(5), SymbolType::Common);
    assert_eq!(SymbolType::from_code(6), SymbolType::TLS);
    for code in 7u8..16 {
        assert_eq!(SymbolType::from_code(code), SymbolType::Unknown(code));
    }
}

#[test]
fn type_is_the_low_nibble() {
    for info in 0u8..=255 {
        assert_eq!(SymbolType::from_info(info), SymbolType::from_code(info & 0x0f));
    }
    assert_eq!(SymbolType::from_info(0xf0), SymbolType::NoType);
    assert_eq!(SymbolType::from_info(0x12), SymbolType::Func);
    assert_eq!(SymbolType::from_info(0x2f), SymbolType::Unknown(15));
}

#[test]
fn visibility_is_the_low_two_bits() {
    assert_eq!(Visibility::from_other(0), Visibility::Default);
    assert_eq!(Visibility::from_other(1), Visibility::Internal);
    assert_eq!(Visibility::from_other(2), Visibility::Hidden);
    assert_eq!(Visibility::from_other(3), Visibility::Protected);
    for other in 0u8..=255 {
        assert_eq!(Visibility::from_other(other), Visibility::from_other(other & 0x03));
    }
    assert_eq!(Visibility::from_other(0xfe), Visibility::Hidden);
}

#[test]
fn decode_copies_address_and_size() {
    let record = RawSymbol {
        name_offset: 1,
        info: 0x12,
        other: 0x03,
        section_index: 14,
        value: 4393,
        size: 15,
    };
    let symbol = Symbol::decode(&record, "main");
    assert_eq!(
        symbol,
        Symbol {
            name: "main",
            binding: Binding::Global,
            typ: SymbolType::Func,
            visibility: Visibility::Protected,
            address: 4393,
            size: 15,
        }
    );
}

#[test]
fn string_table_lookup() {
    let bytes: Vec<u8> = b"..\0main\0ab\0tail".to_vec();
    let table = StringTable::open(&bytes, 2, 9).unwrap();
    assert_eq!(table.lookup(0), Ok(""));
    assert_eq!(table.lookup(1), Ok("main"));
    assert_eq!(table.lookup(3), Ok("in"));
    assert_eq!(table.lookup(5), Ok(""));
    assert_eq!(table.lookup(6), Ok("ab"));
    assert_eq!(table.lookup(8), Ok(""));
    assert_eq!(table.lookup(9), Err(ElfError::InvalidOffset));
    assert_eq!(table.lookup(10), Err(ElfError::InvalidOffset));
    assert_eq!(table.lookup(usize::MAX), Err(ElfError::InvalidOffset));
}

#[test]
fn string_table_without_final_null() {
    let bytes: Vec<u8> = b"\0ab".to_vec();
    let table = StringTable::open(&bytes, 0, 3).unwrap();
    assert_eq!(table.lookup(1), Ok("ab"));
    assert_eq!(table.lookup(2), Ok("b"));
    assert_eq!(table.lookup(3), Err(ElfError::InvalidOffset));
}

#[test]
fn empty_string_table_has_no_text() {
    let bytes: Vec<u8> = b"abc".to_vec();
    let table = StringTable::open(&bytes, 3, 0).unwrap();
    assert_eq!(table.lookup(0), Err(ElfError::InvalidOffset));
}

#[test]
fn string_table_outside_the_buffer_is_not_opened() {
    let bytes: Vec<u8> = b"\0ab\0".to_vec();
    assert!(StringTable::open(&bytes, 0, 5).is_none());
    assert!(StringTable::open(&bytes, 5, 0).is_none());
    assert!(StringTable::open(&bytes, 1, usize::MAX).is_none());
    assert!(StringTable::open(&[0, 0xff, 0], 0, 3).is_none());
}

#[test]
fn symbol_from_record_and_table() {
    let bytes: Vec<u8> = b"\0main\0".to_vec();
    let table = StringTable::open(&bytes, 0, 6).unwrap();
    let mut record = RawSymbol {
        name_offset: 1,
        info: 0x21,
        other: 0x02,
        section_index: 0,
        value: 7,
        size: 9,
    };
    assert_eq!(Symbol::name(&table, &record), Ok("main"));
    let symbol = Symbol::new(&table, &record).unwrap();
    assert_eq!(symbol.name, "main");
    assert_eq!(symbol.binding, Binding::Weak);
    assert_eq!(symbol.typ, SymbolType::Object);
    assert_eq!(symbol.visibility, Visibility::Hidden);
    assert_eq!((symbol.address, symbol.size), (7, 9));
    record.name_offset = 0;
    assert_eq!(Symbol::new(&table, &record).unwrap().name, "");
    record.name_offset = 6;
    assert_eq!(Symbol::name(&table, &record), Err(ElfError::InvalidOffset));
    assert_eq!(Symbol::new(&table, &record), Err(ElfError::InvalidOffset));
}

#[test]
fn ident_bytes() {
    let mut bytes: Vec<u8> = vec![0x7f, b'E', b'L', b'F', 2, 1, 1, 0, 0, 0, 0, 0, 0, 0, 0, 0];
    assert_eq!(check_ident(&bytes), Ok(Ident { wide: true, little_endian: true }));
    bytes[4] = 1;
    bytes[5] = 2;
    assert_eq!(check_ident(&bytes), Ok(Ident { wide: false, little_endian: false }));
    bytes[5] = 0;
    assert_eq!(check_ident(&bytes), Err(ElfError::FormatError));
    bytes[5] = 1;
    bytes[4] = 3;
    assert_eq!(check_ident(&bytes), Err(ElfError::FormatError));
    bytes[4] = 2;
    bytes[3] = b'G';
    assert_eq!(check_ident(&bytes), Err(ElfError::FormatError));
    assert_eq!(check_ident(&bytes[..15]), Err(ElfError::TruncatedError));
    assert_eq!(check_ident(&[]), Err(ElfError::TruncatedError));
}

#[test]
fn section_table_bounds() {
    let header = ElfHeader {
        section_offset: 100,
        section_entry_size: 64,
        section_count: 3,
        section_names_index: 0,
    };
    assert!(check_section_table(&header, 292));
    assert!(!check_section_table(&header, 291));
    let far = ElfHeader { section_offset: u64::MAX, ..header };
    assert!(!check_section_table(&far, usize::MAX));
    let none = ElfHeader { section_offset: 0, section_count: 0, ..header };
    assert!(check_section_table(&none, 0));
}

#[test]
fn section_bounds() {
    assert!(fits(&section(2, 0, 10, 20, 24), 30));
    assert!(!fits(&section(2, 0, 10, 21, 24), 30));
    assert!(!fits(&section(2, 0, u64::MAX, u64::MAX, 24), usize::MAX));
    assert!(fits(&section(2, 0, 30, 0, 24), 30));
}

#[test]
fn last_section_of_a_kind() {
    let sections = vec![
        section(0, 0, 0, 0, 0),
        section(SHT_SYMTAB, 4, 0, 0, 24),
        section(SHT_DYNSYM, 4, 0, 0, 24),
        section(SHT_SYMTAB, 4, 0, 0, 24),
        section(3, 0, 0, 0, 0),
    ];
    assert_eq!(find_last_of_kind(&sections, SHT_SYMTAB), Some(3));
    assert_eq!(find_last_of_kind(&sections, SHT_DYNSYM), Some(2));
    assert_eq!(find_last_of_kind(&sections, 3), Some(4));
    assert_eq!(find_last_of_kind(&sections, 0), Some(0));
    assert_eq!(find_last_of_kind(&sections, 7), None);
    assert_eq!(find_last_of_kind(&Vec::new(), SHT_SYMTAB), None);
}

#[test]
fn locating_the_tables() {
    let sections = vec![
        section(0, 0, 0, 0, 0),
        section(SHT_DYNSYM, 3, 64, 48, 24),
        section(SHT_SYMTAB, 3, 200, 100, 24),
        section(3, 0, 400, 50, 0),
    ];
    assert_eq!(
        locate(&sections, 450),
        Ok(Some(TablePlace {
            symbols_offset: 200,
            symbol_count: 4,
            strings_offset: 400,
            strings_len: 50,
        }))
    );
    assert_eq!(locate(&sections, 449), Err(ElfError::TruncatedError));
    let dynamic_only = vec![
        section(0, 0, 0, 0, 0),
        section(SHT_DYNSYM, 2, 64, 48, 24),
        section(3, 0, 400, 50, 0),
    ];
    assert_eq!(
        locate(&dynamic_only, 1000),
        Ok(Some(TablePlace {
            symbols_offset: 64,
            symbol_count: 2,
            strings_offset: 400,
            strings_len: 50,
        }))
    );
    let bad_link = vec![section(0, 0, 0, 0, 0), section(SHT_SYMTAB, 2, 64, 48, 24)];
    assert_eq!(locate(&bad_link, 1000), Err(ElfError::FormatError));
    let bad_link_and_short = vec![section(0, 0, 0, 0, 0), section(SHT_SYMTAB, 2, 64, 48, 24)];
    assert_eq!(locate(&bad_link_and_short, 10), Err(ElfError::FormatError));
    let past_end = vec![section(SHT_SYMTAB, 1, 64, 48, 24), section(3, 0, 0, 10, 0)];
    assert_eq!(locate(&past_end, 111), Err(ElfError::TruncatedError));
    assert!(locate(&past_end, 112).is_ok());
    let stripped = vec![section(0, 0, 0, 0, 0), section(1, 0, 64, 48, 0)];
    assert_eq!(locate(&stripped, 1000), Ok(None));
    assert_eq!(locate(&Vec::new(), 0), Ok(None));
    let no_entry_size = vec![section(SHT_SYMTAB, 1, 64, 48, 0), section(3, 0, 0, 10, 0)];
    assert_eq!(locate(&no_entry_size, 1000).unwrap().unwrap().symbol_count, 0);
}
