//! Reading the symbol table of an ELF image.
//!
//! The container is parsed by the `goblin` crate. Its symbol table and its
//! string table stay values of that crate; verified code walks the one,
//! looks each name up in the other, and turns what it finds into
//! [`SymbolRecord`]s.

use vstd::prelude::*;

use crate::symbol::{Binding, Kind, RecordView, SymbolRecord};

verus! {

/// The error type of `goblin`. Nothing is known of a value of it.
#[verifier::external_type_specification]
#[verifier::external_body]
pub struct ExGoblinError(goblin::error::Error);

/// The symbol table of `goblin`. What it holds is [`symtab_entries`].
#[verifier::external_type_specification]
#[verifier::external_body]
pub struct ExSymtab<'a>(goblin::elf::sym::Symtab<'a>);

/// The string table of `goblin`. What it holds is [`strtab_strings`].
#[verifier::external_type_specification]
#[verifier::external_body]
pub struct ExStrtab<'a>(goblin::strtab::Strtab<'a>);

/// Binding code of a local symbol.
pub const STB_LOCAL: u8 = 0;

/// Binding code of a global symbol.
pub const STB_GLOBAL: u8 = 1;

/// Binding code of a weak symbol.
pub const STB_WEAK: u8 = 2;

/// Type code of a data object.
pub const STT_OBJECT: u8 = 1;

/// Type code of a function.
pub const STT_FUNC: u8 = 2;

/// Type code of a common block.
pub const STT_COMMON: u8 = 5;

/// One entry of a symbol table, as the container holds it.
#[derive(Clone, Copy, Debug, PartialEq, Eq, Structural)]
pub struct RawEntry {
    /// Where in the string table the name starts.
    pub name_offset: usize,
    /// The info byte: the binding code in its high four bits, the type code
    /// in its low four bits.
    pub info: u8,
    /// The address.
    pub value: u64,
}

/// One entry of a symbol table with its name looked up.
#[derive(Clone, Debug, PartialEq, Eq)]
pub struct RawSymbol {
    /// The string that the string table holds at the entry's name offset, or
    /// `None` where it holds none there.
    pub name: Option<String>,
    /// The info byte.
    pub info: u8,
    /// The address.
    pub value: u64,
}

/// The mathematical content of a [`RawSymbol`].
pub struct RawView {
    pub name: Option<Seq<char>>,
    pub info: u8,
    pub value: u64,
}

impl View for RawSymbol {
    type V = RawView;

    open spec fn view(&self) -> RawView {
        RawView {
            name: match self.name {
                Some(n) => Some(n@),
                None => None,
            },
            info: self.info,
            value: self.value,
        }
    }
}

impl DeepView for RawSymbol {
    type V = RawView;

    open spec fn deep_view(&self) -> RawView {
        self@
    }
}

/// The symbol table and the string table of one ELF image.
pub struct Tables<'a> {
    pub symbols: goblin::elf::sym::Symtab<'a>,
    pub strings: goblin::strtab::Strtab<'a>,
}

/// What a parse of a byte buffer comes to.
pub enum Parsed {
    /// The bytes are no well-formed container of any format.
    Malformed,
    /// The bytes hold a container of another format than ELF.
    Foreign,
    /// The bytes hold an ELF image with these tables.
    Elf { entries: Seq<RawEntry>, strings: Map<usize, Seq<char>> },
}

/// The entries of a symbol table, in order: of each its `st_name`, `st_info`
/// and `st_value`.
pub uninterp spec fn symtab_entries(table: goblin::elf::sym::Symtab<'_>) -> Seq<RawEntry>;

/// The strings of a string table: each offset at which a string can be read,
/// with the string that starts there.
pub uninterp spec fn strtab_strings(table: goblin::strtab::Strtab<'_>) -> Map<usize, Seq<char>>;

/// What `goblin` makes of a byte buffer: whether it parses, whether it is an
/// ELF image, and what its symbol table and the string table of that hold.
pub uninterp spec fn goblin_parse(bytes: Seq<u8>) -> Parsed;

/// The reading of a result of [`parse_tables`] as a [`Parsed`].
pub open spec fn parsed_of(r: Result<Option<Tables<'_>>, goblin::error::Error>) -> Parsed {
    match r {
        Err(_) => Parsed::Malformed,
        Ok(None) => Parsed::Foreign,
        Ok(Some(tables)) => Parsed::Elf {
            entries: symtab_entries(tables.symbols),
            strings: strtab_strings(tables.strings),
        },
    }
}

/// Calls `goblin::Object::parse`. Of an ELF image it hands out `Elf::syms` and
/// `Elf::strtab`; a container of another format gives `Ok(None)`. The
/// contract claims that the outcome depends on the bytes alone, and calls
/// that dependence [`goblin_parse`]; it does not say which bytes parse.
#[verifier::external_body]
fn parse_tables<'a>(bytes: &'a [u8]) -> (r: Result<Option<Tables<'a>>, goblin::error::Error>)
    ensures
        parsed_of(r) == goblin_parse(bytes@),
{
    match goblin::Object::parse(bytes) {
        Err(e) => Err(e),
        Ok(goblin::Object::Elf(elf)) => Ok(Some(Tables { symbols: elf.syms, strings: elf.strtab })),
        Ok(_) => Ok(None),
    }
}

/// Calls `Symtab::len`: the number of entries of the table.
#[verifier::external_body]
fn symtab_len(table: &goblin::elf::sym::Symtab<'_>) -> (n: usize)
    ensures
        n == symtab_entries(*table).len(),
{
    table.len()
}

/// Calls `Symtab::get`: the entry at `index`, or `None` where the table has
/// no more than `index` entries. Of the entry it keeps `st_name`, `st_info`
/// and `st_value`.
#[verifier::external_body]
fn symtab_get(table: &goblin::elf::sym::Symtab<'_>, index: usize) -> (entry: Option<RawEntry>)
    ensures
        index < symtab_entries(*table).len() ==> entry == Some(symtab_entries(*table)[index as int]),
        index >= symtab_entries(*table).len() ==> entry.is_none(),
{
    table.get(index).map(|s| RawEntry { name_offset: s.st_name, info: s.st_info, value: s.st_value })
}

/// Calls `Strtab::get_at`: the string that starts at `offset`, or `None`
/// where none can be read there.
#[verifier::external_body]
fn strtab_get_at<'a>(table: &goblin::strtab::Strtab<'a>, offset: usize) -> (s: Option<&'a str>)
    ensures
        strtab_strings(*table).dom().contains(offset) ==> s.is_some() && s.unwrap()@
            == strtab_strings(*table)[offset],
        !strtab_strings(*table).dom().contains(offset) ==> s.is_none(),
{
    table.get_at(offset)
}

/// Why a byte buffer gave no symbol records.
#[derive(Debug)]
pub enum DecodeError {
    /// The bytes are no well-formed container; the parser's own error says
    /// what is wrong with them.
    Malformed(goblin::error::Error),
    /// The bytes hold a container, but not an ELF image.
    NotElf,
    /// The entry at `index` has a name offset at which the string table holds
    /// no string.
    MissingName { index: usize },
}

/// A [`DecodeError`] without the parser's message.
pub enum DecodeFailure {
    Malformed,
    NotElf,
    MissingName { index: int },
}

impl View for DecodeError {
    type V = DecodeFailure;

    open spec fn view(&self) -> DecodeFailure {
        match self {
            DecodeError::Malformed(_) => DecodeFailure::Malformed,
            DecodeError::NotElf => DecodeFailure::NotElf,
            DecodeError::MissingName { index } => DecodeFailure::MissingName { index: *index as int },
        }
    }
}

/// The binding that an info byte states: the code in its high four bits.
pub open spec fn binding_of(info: u8) -> Binding {
    let code = info / 16;
    if code == STB_LOCAL {
        Binding::Local
    } else if code == STB_GLOBAL {
        Binding::Global
    } else if code == STB_WEAK {
        Binding::Weak
    } else {
        Binding::Other
    }
}

/// The kind that an info byte states: the code in its low four bits.
pub open spec fn kind_of(info: u8) -> Kind {
    let code = info % 16;
    if code == STT_FUNC {
        Kind::Function
    } else if code == STT_OBJECT {
        Kind::Object
    } else if code == STT_COMMON {
        Kind::Common
    } else {
        Kind::Other
    }
}

/// The record of a raw entry that has a name.
pub open spec fn record_of(raw: RawView) -> RecordView
    recommends
        raw.name is Some,
{
    RecordView {
        name: raw.name->0,
        binding: binding_of(raw.info),
        kind: kind_of(raw.info),
        value: raw.value,
    }
}

/// The number of entries at the start of `raws` that have a name: the index
/// of the first entry without one, or the length where every entry has one.
pub open spec fn named_prefix(raws: Seq<RawView>) -> int
    decreases raws.len(),
{
    if raws.len() == 0 {
        0
    } else if raws[0].name is None {
        0
    } else {
        1 + named_prefix(raws.drop_first())
    }
}

/// The records of a raw table: one for each entry, in order, where every
/// entry has a name; else the index of the first entry without one.
pub open spec fn records_of(raws: Seq<RawView>) -> Result<Seq<RecordView>, DecodeFailure> {
    if named_prefix(raws) == raws.len() {
        Ok(raws.map_values(|r: RawView| record_of(r)))
    } else {
        Err(DecodeFailure::MissingName { index: named_prefix(raws) })
    }
}

/// The string that `strings` holds at `offset`, if it holds one there.
pub open spec fn string_at(strings: Map<usize, Seq<char>>, offset: usize) -> Option<Seq<char>> {
    if strings.dom().contains(offset) {
        Some(strings[offset])
    } else {
        None
    }
}

/// The entries of a symbol table, each with its name looked up.
pub open spec fn resolved(entries: Seq<RawEntry>, strings: Map<usize, Seq<char>>) -> Seq<RawView> {
    entries.map_values(
        |e: RawEntry| RawView { name: string_at(strings, e.name_offset), info: e.info, value: e.value },
    )
}

/// The records that a byte buffer holds.
pub open spec fn decoded(bytes: Seq<u8>) -> Result<Seq<RecordView>, DecodeFailure> {
    match goblin_parse(bytes) {
        Parsed::Malformed => Err(DecodeFailure::Malformed),
        Parsed::Foreign => Err(DecodeFailure::NotElf),
        Parsed::Elf { entries, strings } => records_of(resolved(entries, strings)),
    }
}

/// The mathematical content of a result of decoding.
pub open spec fn records_view(r: Result<Vec<SymbolRecord>, DecodeError>) -> Result<
    Seq<RecordView>,
    DecodeFailure,
> {
    match r {
        Ok(records) => Ok(records.deep_view()),
        Err(e) => Err(e@),
    }
}

/// `named_prefix` is the least index without a name, and the length where
/// there is none.
pub proof fn lemma_named_prefix(raws: Seq<RawView>)
    ensures
        0 <= named_prefix(raws) <= raws.len(),
        forall|j: int| 0 <= j < named_prefix(raws) ==> (#[trigger] raws[j]).name is Some,
        named_prefix(raws) < raws.len() ==> raws[named_prefix(raws)].name is None,
    decreases raws.len(),
{
    if raws.len() > 0 && raws[0].name is Some {
        let rest = raws.drop_first();
        lemma_named_prefix(rest);
        assert forall|j: int| 0 <= j < named_prefix(raws) implies (#[trigger] raws[j]).name
            is Some by {
            if j > 0 {
                assert(raws[j] == rest[j - 1]);
            }
        }
        if named_prefix(raws) < raws.len() {
            assert(raws[named_prefix(raws)] == rest[named_prefix(rest)]);
        }
    }
}

/// An index without a name, with names at every index before it, is the
/// `named_prefix`; so is the length, where every entry has a name.
pub proof fn lemma_named_prefix_is(raws: Seq<RawView>, i: int)
    requires
        0 <= i <= raws.len(),
        forall|j: int| 0 <= j < i ==> (#[trigger] raws[j]).name is Some,
        i < raws.len() ==> raws[i].name is None,
    ensures
        named_prefix(raws) == i,
{
    lemma_named_prefix(raws);
    let p = named_prefix(raws);
    if p < i {
        assert(raws[p].name is Some);
    } else if i < p {
        assert(raws[i].name is Some);
    }
}

/// The binding that an info byte states.
pub fn binding_from_info(info: u8) -> (binding: Binding)
    ensures
        binding == binding_of(info),
{
    let code = info >> 4;
    assert(code == info / 16) by (bit_vector)
        requires
            code == info >> 4,
    ;
    if code == STB_LOCAL {
        Binding::Local
    } else if code == STB_GLOBAL {
        Binding::Global
    } else if code == STB_WEAK {
        Binding::Weak
    } else {
        Binding::Other
    }
}

/// The kind that an info byte states.
pub fn kind_from_info(info: u8) -> (kind: Kind)
    ensures
        kind == kind_of(info),
{
    let code = info & 0xf;
    assert(code == info % 16) by (bit_vector)
        requires
            code == info & 0xf,
    ;
    if code == STT_FUNC {
        Kind::Function
    } else if code == STT_OBJECT {
        Kind::Object
    } else if code == STT_COMMON {
        Kind::Common
    } else {
        Kind::Other
    }
}

/// Turns the entries of a raw table into records, in order. An entry without
/// a name stops the work: the error names the first such entry.
pub fn records_from_raw(raws: &[RawSymbol]) -> (r: Result<Vec<SymbolRecord>, DecodeError>)
    ensures
        records_view(r) == records_of(raws.deep_view()),
{
    let mut records: Vec<SymbolRecord> = Vec::new();
    let mut i: usize = 0;
    while i < raws.len()
        invariant
            i <= raws.len(),
            records.len() == i,
            forall|j: int| 0 <= j < i ==> (#[trigger] raws.deep_view()[j]).name is Some,
            forall|j: int| 0 <= j < i ==> (#[trigger] records[j])@ == record_of(raws[j]@),
        decreases raws.len() - i,
    {
        assert(raws.deep_view()[i as int] == raws[i as int]@);
        match &raws[i].name {
            Some(name) => {
                records.push(
                    SymbolRecord {
                        name: name.clone(),
                        binding: binding_from_info(raws[i].info),
                        kind: kind_from_info(raws[i].info),
                        value: raws[i].value,
                    },
                );
            },
            None => {
                proof {
                    lemma_named_prefix_is(raws.deep_view(), i as int);
                }
                return Err(DecodeError::MissingName { index: i });
            },
        }
        i += 1;
    }
    proof {
        lemma_named_prefix_is(raws.deep_view(), i as int);
        assert(records.deep_view() =~= raws.deep_view().map_values(|r: RawView| record_of(r)));
    }
    Ok(records)
}

/// Walks the symbol table and looks the name of each entry up in the string
/// table.
pub fn resolve(tables: &Tables<'_>) -> (raws: Vec<RawSymbol>)
    ensures
        raws.deep_view() == resolved(
            symtab_entries(tables.symbols),
            strtab_strings(tables.strings),
        ),
{
    let ghost entries = symtab_entries(tables.symbols);
    let ghost strings = strtab_strings(tables.strings);
    let count = symtab_len(&tables.symbols);
    let mut raws: Vec<RawSymbol> = Vec::new();
    let mut i: usize = 0;
    while i < count
        invariant
            i <= count == entries.len(),
            entries == symtab_entries(tables.symbols),
            strings == strtab_strings(tables.strings),
            raws.len() == i,
            forall|k: int| 0 <= k < i ==> (#[trigger] raws[k])@ == resolved(entries, strings)[k],
        decreases count - i,
    {
        if let Some(entry) = symtab_get(&tables.symbols, i) {
            let name = match strtab_get_at(&tables.strings, entry.name_offset) {
                Some(s) => Some(s.to_owned()),
                None => None,
            };
            raws.push(RawSymbol { name, info: entry.info, value: entry.value });
        }
        i += 1;
    }
    assert(raws.deep_view() =~= resolved(entries, strings));
    raws
}

/// Reads the symbol records of an ELF image, in the order of its symbol
/// table. Bytes that do not parse, a container of another format, and an
/// entry without a name each give their own error.
pub fn decode(bytes: &[u8]) -> (r: Result<Vec<SymbolRecord>, DecodeError>)
    ensures
        records_view(r) == decoded(bytes@),
{
    match parse_tables(bytes) {
        Err(e) => Err(DecodeError::Malformed(e)),
        Ok(None) => Err(DecodeError::NotElf),
        Ok(Some(tables)) => {
            let raws = resolve(&tables);
            records_from_raw(raws.as_slice())
        },
    }
}

} // verus!
