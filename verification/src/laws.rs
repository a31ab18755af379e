//! What holds of the library as a whole, proved from the contracts of its
//! functions.

use vstd::prelude::*;
use crate::elf::{
    contents_of,
    decoded,
    decoded_at,
    decoded_prefix,
    first_match,
    first_match_from,
    map_of,
    matches_at,
    no_symbols,
    symbol_map_views,
    symbol_views,
    Contents,
    ELF,
};
use crate::error::ElfError;
use crate::layout::{located, place_of, Ident, SectionHeader, TablePlace, IDENT_LEN};
use crate::symbol::{
    binding_of_code,
    type_of_code,
    visibility_of_code,
    Binding,
    Symbol,
    SymbolType,
    SymbolView,
    Visibility,
};

verus! {

/// Every four-bit code has a binding: 0, 1 and 2 are local, global and
/// weak, and every other code is kept unchanged as an unknown binding.
pub proof fn law_binding_total(code: u8)
    requires
        code < 16,
    ensures
        code == 0 ==> binding_of_code(code) == Binding::Local,
        code == 1 ==> binding_of_code(code) == Binding::Global,
        code == 2 ==> binding_of_code(code) == Binding::Weak,
        code > 2 ==> binding_of_code(code) == Binding::Unknown(code),
{
}

/// Every four-bit code has a type: 0 to 6 are the seven named types, and
/// every other code is kept unchanged as an unknown type.
pub proof fn law_type_total(code: u8)
    requires
        code < 16,
    ensures
        code == 0 ==> type_of_code(code) == SymbolType::NoType,
        code == 1 ==> type_of_code(code) == SymbolType::Object,
        code == 2 ==> type_of_code(code) == SymbolType::Func,
        code == 3 ==> type_of_code(code) == SymbolType::Section,
        code == 4 ==> type_of_code(code) == SymbolType::File,
        code == 5 ==> type_of_code(code) == SymbolType::Common,
        code == 6 ==> type_of_code(code) == SymbolType::TLS,
        code > 6 ==> type_of_code(code) == SymbolType::Unknown(code),
{
}

/// Every two-bit code has a visibility, and the four codes have four
/// different ones.
pub proof fn law_visibility_total(code: u8)
    requires
        code < 4,
    ensures
        code == 0 <==> visibility_of_code(code) == Visibility::Default,
        code == 1 <==> visibility_of_code(code) == Visibility::Internal,
        code == 2 <==> visibility_of_code(code) == Visibility::Hidden,
        code == 3 <==> visibility_of_code(code) == Visibility::Protected,
{
}

/// Locating the symbol table fails only with a format error or as
/// truncated.
pub proof fn law_place_errors(sections: Seq<SectionHeader>, len: nat)
    ensures
        place_of(sections, len) is Err ==> place_of(sections, len)->Err_0 != ElfError::InvalidOffset,
{
}

/// Opening a buffer, whatever it holds, ends in an image or in one of two
/// errors: a format error, or truncated. A buffer shorter than the
/// identification bytes, the empty one among them, is truncated.
pub proof fn law_open_total(bytes: Seq<u8>)
    ensures
        contents_of(bytes) is Err ==> contents_of(bytes)->Err_0 == ElfError::FormatError
            || contents_of(bytes)->Err_0 == ElfError::TruncatedError,
        bytes.len() < IDENT_LEN ==> contents_of(bytes) == Err::<Contents, ElfError>(
            ElfError::TruncatedError,
        ),
        located(bytes) == Ok::<Option<(Ident, TablePlace)>, ElfError>(None) ==> contents_of(bytes)
            == Ok::<Contents, ElfError>(no_symbols()),
{
}

/// No more symbols are decoded than there are records.
pub proof fn law_decoded_len(contents: Contents, n: nat)
    ensures
        decoded_prefix(contents, n).len() <= n,
    decreases n,
{
    if n > 0 {
        law_decoded_len(contents, (n - 1) as nat);
    }
}

/// Asking twice gives the same: two lists of the symbols of one image
/// hold the same symbols in the same order, and two maps of them hold the
/// same symbol under each name.
pub proof fn law_queries_repeat(
    elf: &ELF,
    first: Seq<Symbol>,
    second: Seq<Symbol>,
    first_map: Map<Seq<char>, Symbol>,
    second_map: Map<Seq<char>, Symbol>,
)
    requires
        symbol_views(first) == decoded(elf@),
        symbol_views(second) == decoded(elf@),
        symbol_map_views(first_map) == map_of(decoded(elf@)),
        symbol_map_views(second_map) == map_of(decoded(elf@)),
    ensures
        first.len() == second.len(),
        forall|i: int| 0 <= i < first.len() ==> first[i]@ == second[i]@,
        first_map.dom() == second_map.dom(),
        forall|name: Seq<char>| first_map.contains_key(name) ==> first_map[name]@ == second_map[name]@,
{
    assert(symbol_views(first).len() == first.len());
    assert(symbol_views(second).len() == second.len());
    assert forall|i: int| 0 <= i < first.len() implies first[i]@ == second[i]@ by {
        assert(symbol_views(first)[i] == first[i]@);
        assert(symbol_views(second)[i] == second[i]@);
    }
    assert(symbol_map_views(first_map).dom() =~= first_map.dom());
    assert(symbol_map_views(second_map).dom() =~= second_map.dom());
    assert forall|name: Seq<char>| first_map.contains_key(name) implies first_map[name]@
        == second_map[name]@ by {
        assert(symbol_map_views(first_map)[name] == first_map[name]@);
        assert(symbol_map_views(second_map)[name] == second_map[name]@);
    }
}

/// The names in the map of a sequence of symbols are the names of its
/// symbols, and they are no more than the symbols.
pub proof fn law_map_names(symbols: Seq<SymbolView>)
    ensures
        map_of(symbols).dom().finite(),
        map_of(symbols).len() <= symbols.len(),
        forall|name: Seq<char>|
            map_of(symbols).contains_key(name) <==> exists|i: int|
                0 <= i < symbols.len() && #[trigger] symbols[i].name == name,
    decreases symbols.len(),
{
    if symbols.len() > 0 {
        let rest = symbols.drop_last();
        let last = symbols.last();
        law_map_names(rest);
        assert forall|name: Seq<char>|
            map_of(symbols).contains_key(name) <==> exists|i: int|
                0 <= i < symbols.len() && #[trigger] symbols[i].name == name by {
            if map_of(symbols).contains_key(name) {
                if name == last.name {
                    assert(symbols[symbols.len() - 1].name == name);
                } else {
                    let i = choose|i: int| 0 <= i < rest.len() && #[trigger] rest[i].name == name;
                    assert(symbols[i].name == name);
                }
            }
            if exists|i: int| 0 <= i < symbols.len() && #[trigger] symbols[i].name == name {
                let i = choose|i: int| 0 <= i < symbols.len() && #[trigger] symbols[i].name == name;
                if i < rest.len() {
                    assert(rest[i].name == name);
                }
            }
        }
    }
}

/// Under each name the map of a sequence of symbols holds the last symbol
/// of that name.
pub proof fn law_map_holds_last(symbols: Seq<SymbolView>, i: int)
    requires
        0 <= i < symbols.len(),
        forall|j: int| i < j < symbols.len() ==> symbols[j].name != symbols[i].name,
    ensures
        map_of(symbols).contains_key(symbols[i].name),
        map_of(symbols)[symbols[i].name] == symbols[i],
    decreases symbols.len(),
{
    if i < symbols.len() - 1 {
        let rest = symbols.drop_last();
        assert(symbols[symbols.len() - 1].name != symbols[i].name);
        assert forall|j: int| i < j < rest.len() implies rest[j].name != rest[i].name by {
            assert(symbols[j].name != symbols[i].name);
        }
        law_map_holds_last(rest, i);
    }
}

/// The map of an image's symbols against their list: the map holds no
/// more entries than the list, and for a symbol that is the last of its
/// name in the list, the map holds that symbol under that name.
pub proof fn law_map_agrees_with_list(
    elf: &ELF,
    list: Seq<Symbol>,
    map: Map<Seq<char>, Symbol>,
    i: int,
)
    requires
        symbol_views(list) == decoded(elf@),
        symbol_map_views(map) == map_of(decoded(elf@)),
        0 <= i < list.len(),
        forall|j: int| i < j < list.len() ==> list[j]@.name != list[i]@.name,
    ensures
        map.dom().finite(),
        map.len() <= list.len(),
        map.contains_key(list[i]@.name),
        map[list[i]@.name]@ == list[i]@,
{
    let views = symbol_views(list);
    law_map_names(views);
    assert(views.len() == list.len());
    assert(symbol_map_views(map).dom() =~= map.dom());
    assert(views[i] == list[i]@);
    assert forall|j: int| i < j < views.len() implies views[j].name != views[i].name by {
        assert(views[j] == list[j]@);
    }
    law_map_holds_last(views, i);
    assert(symbol_map_views(map)[list[i]@.name] == map[list[i]@.name]@);
}

/// The names in the map of an image's symbols are the names in their
/// list.
pub proof fn law_map_names_are_list_names(
    elf: &ELF,
    list: Seq<Symbol>,
    map: Map<Seq<char>, Symbol>,
    name: Seq<char>,
)
    requires
        symbol_views(list) == decoded(elf@),
        symbol_map_views(map) == map_of(decoded(elf@)),
    ensures
        map.contains_key(name) <==> exists|i: int|
            0 <= i < list.len() && #[trigger] list[i]@.name == name,
{
    let views = symbol_views(list);
    law_map_names(views);
    assert(views.len() == list.len());
    assert(symbol_map_views(map).dom() =~= map.dom());
    if map.contains_key(name) {
        let i = choose|i: int| 0 <= i < views.len() && #[trigger] views[i].name == name;
        assert(views[i] == list[i]@);
    }
    if exists|i: int| 0 <= i < list.len() && #[trigger] list[i]@.name == name {
        let i = choose|i: int| 0 <= i < list.len() && #[trigger] list[i]@.name == name;
        assert(views[i] == list[i]@);
        assert(views[i].name == name);
    }
}

/// `first_match_from` names the least index from `start` on at which a
/// record decodes and has the name.
pub proof fn law_first_match_from(contents: Contents, name: Seq<char>, start: nat)
    ensures
        match first_match_from(contents, name, start) {
            Some(i) => start <= i < contents.records.len() && matches_at(contents, name, i)
                && forall|j: int| start <= j < i ==> !matches_at(contents, name, j),
            None => forall|j: int|
                start <= j < contents.records.len() ==> !matches_at(contents, name, j),
        },
    decreases contents.records.len() - start,
{
    if start < contents.records.len() && !matches_at(contents, name, start as int) {
        law_first_match_from(contents, name, start + 1);
    }
}

/// A lookup by name finds the first record in table order that decodes
/// and has the name, and finds nothing exactly when no record does.
pub proof fn law_first_match(contents: Contents, name: Seq<char>)
    ensures
        match first_match(contents, name) {
            Some(i) => 0 <= i < contents.records.len() && matches_at(contents, name, i)
                && forall|j: int| 0 <= j < i ==> !matches_at(contents, name, j),
            None => forall|j: int|
                0 <= j < contents.records.len() ==> !matches_at(contents, name, j),
        },
{
    law_first_match_from(contents, name, 0);
}

/// The symbols of the first `m` records open the symbols of the first `n`
/// records, for `m` no greater than `n`.
pub proof fn law_decoded_grows(contents: Contents, m: nat, n: nat)
    requires
        m <= n,
    ensures
        decoded_prefix(contents, m).len() <= decoded_prefix(contents, n).len(),
        decoded_prefix(contents, n).take(decoded_prefix(contents, m).len() as int)
            == decoded_prefix(contents, m),
    decreases n - m,
{
    let short = decoded_prefix(contents, m);
    if m == n {
        assert(short.take(short.len() as int) =~= short);
    } else {
        law_decoded_grows(contents, m, (n - 1) as nat);
        let before = decoded_prefix(contents, (n - 1) as nat);
        assert(decoded_prefix(contents, n).take(short.len() as int) =~= before.take(
            short.len() as int,
        ));
    }
}

/// Where none of the first `n` records decodes to the name, none of their
/// symbols has it.
pub proof fn law_no_match_no_name(contents: Contents, name: Seq<char>, n: nat)
    requires
        forall|j: int| 0 <= j < n ==> !matches_at(contents, name, j),
    ensures
        forall|k: int|
            0 <= k < decoded_prefix(contents, n).len() ==> decoded_prefix(contents, n)[k].name
                != name,
    decreases n,
{
    if n > 0 {
        law_no_match_no_name(contents, name, (n - 1) as nat);
        assert(!matches_at(contents, name, n - 1));
    }
}

/// A lookup by name and the list of symbols agree: what the lookup finds
/// is the first symbol of that name in the list, and it finds nothing
/// exactly when the list holds no symbol of that name.
pub proof fn law_lookup_agrees_with_list(contents: Contents, name: Seq<char>)
    ensures
        match first_match(contents, name) {
            Some(i) => exists|k: int|
                0 <= k < decoded(contents).len() && Ok::<SymbolView, ElfError>(
                    #[trigger] decoded(contents)[k],
                ) == decoded_at(contents, i) && decoded(contents)[k].name == name && forall|j: int|
                    0 <= j < k ==> decoded(contents)[j].name != name,
            None => forall|k: int|
                0 <= k < decoded(contents).len() ==> decoded(contents)[k].name != name,
        },
{
    law_first_match(contents, name);
    let len = contents.records.len();
    match first_match(contents, name) {
        Some(i) => {
            let before = decoded_prefix(contents, i as nat);
            let with = decoded_prefix(contents, (i + 1) as nat);
            let all = decoded(contents);
            let k = before.len() as int;
            law_no_match_no_name(contents, name, i as nat);
            law_decoded_grows(contents, (i + 1) as nat, len);
            assert(with == before.push(decoded_at(contents, i)->Ok_0));
            assert(all.take(with.len() as int)[k] == with[k]);
            assert forall|j: int| 0 <= j < k implies all[j].name != name by {
                assert(all.take(with.len() as int)[j] == with[j]);
                assert(with[j] == before[j]);
            }
            assert(Ok::<SymbolView, ElfError>(all[k]) == decoded_at(contents, i));
        },
        None => {
            law_no_match_no_name(contents, name, len);
        },
    }
}

} // verus!
