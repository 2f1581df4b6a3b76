use symbol_gen::address_map::generate;
use symbol_gen::classify::Exclusions;
use symbol_gen::decode::{
    binding_from_info, decode, kind_from_info, records_from_raw, resolve, DecodeError, RawSymbol,
    Tables,
};
use symbol_gen::symbol::{Binding, Kind, SymbolRecord};

fn record(name: &str, binding: Binding, kind: Kind, value: u64) -> SymbolRecord {
    SymbolRecord { name: name.to_string(), binding, kind, value }
}

fn raw(name: Option<&str>, info: u8, value: u64) -> RawSymbol {
    RawSymbol { name: name.map(|n| n.to_string()), info, value }
}

/// One entry of a symbol table to be written: name offset, info byte, value.
struct Entry(u32, u8, u64);

fn put16(out: &mut Vec<u8>, v: u16) {
    out.extend_from_slice(&v.to_le_bytes());
}

fn put32(out: &mut Vec<u8>, v: u32) {
    out.extend_from_slice(&v.to_le_bytes());
}

fn put64(out: &mut Vec<u8>, v: u64) {
    out.extend_from_slice(&v.to_le_bytes());
}

/// A word of the container's own width.
fn put_word(out: &mut Vec<u8>, wide: bool, v: u64) {
    if wide {
        put64(out, v);
    } else {
        put32(out, v as u32);
    }
}

fn section(
    out: &mut Vec<u8>,
    wide: bool,
    name: u32,
    kind: u32,
    offset: u64,
    size: u64,
    link: u32,
    entsize: u64,
) {
    put32(out, name);
    put32(out, kind);
    put_word(out, wide, 0);
    put_word(out, wide, 0);
    put_word(out, wide, offset);
    put_word(out, wide, size);
    put32(out, link);
    put32(out, 0);
    put_word(out, wide, 1);
    put_word(out, wide, entsize);
}

/// A little-endian ELF image without program headers that holds a symbol
/// table, its string table and the section name table.
fn elf(wide: bool, strtab: &[u8], entries: &[Entry]) -> Vec<u8> {
    let shstrtab: &[u8] = b"\0.symtab\0.strtab\0.shstrtab\0";
    let ehsize: u64 = if wide { 64 } else { 52 };
    let symsize: u64 = if wide { 24 } else { 16 };
    let symtab_at = ehsize;
    let symtab_len = symsize * entries.len() as u64;
    let strtab_at = symtab_at + symtab_len;
    let shstrtab_at = strtab_at + strtab.len() as u64;
    let shoff = shstrtab_at + shstrtab.len() as u64;

    let mut out = vec![0x7f, b'E', b'L', b'F', if wide { 2 } else { 1 }, 1, 1, 0];
    out.extend_from_slice(&[0; 8]);
    put16(&mut out, 2);
    put16(&mut out, if wide { 62 } else { 105 });
    put32(&mut out, 1);
    put_word(&mut out, wide, 0x4400);
    put_word(&mut out, wide, 0);
    put_word(&mut out, wide, shoff);
    put32(&mut out, 0);
    put16(&mut out, ehsize as u16);
    put16(&mut out, if wide { 56 } else { 32 });
    put16(&mut out, 0);
    put16(&mut out, if wide { 64 } else { 40 });
    put16(&mut out, 4);
    put16(&mut out, 3);
    assert_eq!(out.len() as u64, ehsize);

    for Entry(name, info, value) in entries {
        put32(&mut out, *name);
        if wide {
            out.push(*info);
            out.push(0);
            put16(&mut out, 1);
            put64(&mut out, *value);
            put64(&mut out, 0);
        } else {
            put32(&mut out, *value as u32);
            put32(&mut out, 0);
            out.push(*info);
            out.push(0);
            put16(&mut out, 1);
        }
    }
    out.extend_from_slice(strtab);
    out.extend_from_slice(shstrtab);
    assert_eq!(out.len() as u64, shoff);

    section(&mut out, wide, 0, 0, 0, 0, 0, 0);
    section(&mut out, wide, 1, 2, symtab_at, symtab_len, 2, symsize);
    section(&mut out, wide, 9, 3, strtab_at, strtab.len() as u64, 0, 0);
    section(&mut out, wide, 17, 3, shstrtab_at, shstrtab.len() as u64, 0, 0);
    out
}

const STRINGS: &[u8] = b"\0boot_init\0main\0_reset_vector\0helper\0rx_buffer\0shared\0boot.c\0";

/// The offset in `STRINGS` at which `name` starts.
fn at(name: &str) -> u32 {
    let mut probe = vec![0u8];
    probe.extend_from_slice(name.as_bytes());
    probe.push(0);
    let found = STRINGS.windows(probe.len()).position(|w| w == probe.as_slice());
    found.unwrap() as u32 + 1
}

fn bootloader_entries() -> Vec<Entry> {
    vec![
        Entry(0, 0x00, 0),
        Entry(at("boot.c"), 0x04, 0),
        Entry(at("helper"), 0x02, 0x3000),
        Entry(at("boot_init"), 0x12, 0x1000),
        Entry(at("main"), 0x12, 0x2000),
        Entry(at("_reset_vector"), 0x12, 0x100),
        Entry(at("rx_buffer"), 0x11, 0x1c00),
        Entry(at("shared"), 0x15, 0x1d00),
        Entry(at("boot_init") + 5, 0x22, 0x2200),
        Entry(at("rx_buffer"), 0xa1, 0x1c02),
        Entry(at("boot_init"), 0x13, 0x1000),
    ]
}

fn bootloader_records() -> Vec<SymbolRecord> {
    vec![
        record("", Binding::Local, Kind::Other, 0),
        record("boot.c", Binding::Local, Kind::Other, 0),
        record("helper", Binding::Local, Kind::Function, 0x3000),
        record("boot_init", Binding::Global, Kind::Function, 0x1000),
        record("main", Binding::Global, Kind::Function, 0x2000),
        record("_reset_vector", Binding::Global, Kind::Function, 0x100),
        record("rx_buffer", Binding::Global, Kind::Object, 0x1c00),
        record("shared", Binding::Global, Kind::Common, 0x1d00),
        record("init", Binding::Weak, Kind::Function, 0x2200),
        record("rx_buffer", Binding::Other, Kind::Object, 0x1c02),
        record("boot_init", Binding::Global, Kind::Other, 0x1000),
    ]
}

#[test]
fn decode_reads_the_symbol_table_of_a_32_bit_image() {
    let image = elf(false, STRINGS, &bootloader_entries());
    let records = decode(&image).unwrap();
    assert_eq!(records, bootloader_records());
}

#[test]
fn decode_reads_the_symbol_table_of_a_64_bit_image() {
    let mut entries = bootloader_entries();
    entries.push(Entry(at("boot_init"), 0x12, 0x1_0000_2000));
    entries.push(Entry(at("rx_buffer"), 0x11, u64::MAX));
    let image = elf(true, STRINGS, &entries);
    let mut expected = bootloader_records();
    expected.push(record("boot_init", Binding::Global, Kind::Function, 0x1_0000_2000));
    expected.push(record("rx_buffer", Binding::Global, Kind::Object, u64::MAX));
    assert_eq!(decode(&image).unwrap(), expected);
}

#[test]
fn generate_renders_the_accepted_symbols_of_an_image() {
    let image = elf(false, STRINGS, &bootloader_entries());
    let lines = generate(&image, &Exclusions::c_runtime()).unwrap();
    assert_eq!(lines, vec!["boot_init=0x1000;", "rx_buffer=0x1C00;", "shared=0x1D00;"]);
}

#[test]
fn generate_renders_wide_addresses() {
    let entries = vec![Entry(0, 0, 0), Entry(at("boot_init"), 0x12, 0xffff_ffff_0000_0010)];
    let image = elf(true, STRINGS, &entries);
    let lines = generate(&image, &Exclusions::c_runtime()).unwrap();
    assert_eq!(lines, vec!["boot_init=0xFFFFFFFF00000010;"]);
}

#[test]
fn generate_follows_the_exclusions_it_is_given() {
    let image = elf(false, STRINGS, &bootloader_entries());
    let ex = Exclusions::new(vec!["boot_init".to_string()]);
    let lines = generate(&image, &ex).unwrap();
    assert_eq!(lines, vec!["main=0x2000;", "rx_buffer=0x1C00;", "shared=0x1D00;"]);
}

#[test]
fn an_image_with_an_empty_symbol_table_has_an_empty_map() {
    let image = elf(false, STRINGS, &[]);
    assert_eq!(decode(&image).unwrap(), Vec::<SymbolRecord>::new());
    assert!(generate(&image, &Exclusions::c_runtime()).unwrap().is_empty());
}

#[test]
fn an_image_without_sections_has_an_empty_map() {
    let mut image = elf(false, STRINGS, &bootloader_entries());
    image.truncate(52);
    image[32..36].copy_from_slice(&[0; 4]);
    image[48..52].copy_from_slice(&[0; 4]);
    assert_eq!(decode(&image).unwrap(), Vec::<SymbolRecord>::new());
    assert!(generate(&image, &Exclusions::c_runtime()).unwrap().is_empty());
}

#[test]
fn a_name_offset_past_the_string_table_is_an_error() {
    let mut entries = bootloader_entries();
    entries[4] = Entry(STRINGS.len() as u32 + 40, 0x12, 0x2000);
    entries[7] = Entry(STRINGS.len() as u32 + 50, 0x12, 0x2000);
    let image = elf(false, STRINGS, &entries);
    assert!(matches!(decode(&image), Err(DecodeError::MissingName { index: 4 })));
    assert!(matches!(
        generate(&image, &Exclusions::c_runtime()),
        Err(DecodeError::MissingName { index: 4 })
    ));
}

#[test]
fn a_rejected_symbol_without_a_name_is_an_error_too() {
    let entries =
        vec![Entry(0, 0, 0), Entry(at("boot_init"), 0x12, 0x1000), Entry(9999, 0x02, 0x3000)];
    let image = elf(false, STRINGS, &entries);
    assert!(matches!(
        generate(&image, &Exclusions::c_runtime()),
        Err(DecodeError::MissingName { index: 2 })
    ));
}

#[test]
fn bytes_that_are_too_few_are_malformed() {
    assert!(matches!(decode(&[]), Err(DecodeError::Malformed(_))));
    assert!(matches!(decode(&[0x7f, b'E', b'L', b'F']), Err(DecodeError::Malformed(_))));
    assert!(matches!(
        generate(&[1, 2, 3], &Exclusions::c_runtime()),
        Err(DecodeError::Malformed(_))
    ));
}

#[test]
fn a_truncated_image_is_malformed() {
    let mut image = elf(false, STRINGS, &bootloader_entries());
    image.truncate(100);
    assert!(matches!(decode(&image), Err(DecodeError::Malformed(_))));
}

#[test]
fn an_unknown_container_is_not_elf() {
    assert!(matches!(decode(&[0; 16]), Err(DecodeError::NotElf)));
    assert!(matches!(decode(&[0x42; 64]), Err(DecodeError::NotElf)));
    assert!(matches!(
        generate(b"plain text, sixteen bytes or more", &Exclusions::c_runtime()),
        Err(DecodeError::NotElf)
    ));
}

#[test]
fn info_byte_holds_binding_and_kind() {
    assert_eq!(binding_from_info(0x00), Binding::Local);
    assert_eq!(binding_from_info(0x12), Binding::Global);
    assert_eq!(binding_from_info(0x25), Binding::Weak);
    assert_eq!(binding_from_info(0xa0), Binding::Other);
    assert_eq!(kind_from_info(0x10), Kind::Other);
    assert_eq!(kind_from_info(0x11), Kind::Object);
    assert_eq!(kind_from_info(0x12), Kind::Function);
    assert_eq!(kind_from_info(0x13), Kind::Other);
    assert_eq!(kind_from_info(0x14), Kind::Other);
    assert_eq!(kind_from_info(0x15), Kind::Common);
    assert_eq!(kind_from_info(0x16), Kind::Other);
}

#[test]
fn every_info_byte_is_read_by_its_halves() {
    for info in 0..=255u8 {
        let binding = match info >> 4 {
            0 => Binding::Local,
            1 => Binding::Global,
            2 => Binding::Weak,
            _ => Binding::Other,
        };
        let kind = match info & 0xf {
            1 => Kind::Object,
            2 => Kind::Function,
            5 => Kind::Common,
            _ => Kind::Other,
        };
        assert_eq!(binding_from_info(info), binding);
        assert_eq!(kind_from_info(info), kind);
    }
}

#[test]
fn raw_entries_become_records_in_order() {
    let raws = vec![
        raw(Some(""), 0x00, 0),
        raw(Some("boot_init"), 0x12, 0x1000),
        raw(Some("rx_buffer"), 0x11, 0x1c00),
        raw(Some("helper"), 0x02, 0x3000),
        raw(Some("boot_init"), 0x12, 0x1000),
    ];
    assert_eq!(
        records_from_raw(&raws).unwrap(),
        vec![
            record("", Binding::Local, Kind::Other, 0),
            record("boot_init", Binding::Global, Kind::Function, 0x1000),
            record("rx_buffer", Binding::Global, Kind::Object, 0x1c00),
            record("helper", Binding::Local, Kind::Function, 0x3000),
            record("boot_init", Binding::Global, Kind::Function, 0x1000),
        ]
    );
    assert_eq!(records_from_raw(&[]).unwrap(), Vec::<SymbolRecord>::new());
}

#[test]
fn first_raw_entry_without_a_name_is_the_error() {
    let raws = vec![
        raw(Some("a"), 0x12, 1),
        raw(None, 0x12, 2),
        raw(Some("c"), 0x12, 3),
        raw(None, 0x12, 4),
    ];
    assert!(matches!(records_from_raw(&raws), Err(DecodeError::MissingName { index: 1 })));
    assert!(matches!(
        records_from_raw(&[raw(None, 0, 0)]),
        Err(DecodeError::MissingName { index: 0 })
    ));
}

#[test]
fn resolve_looks_each_name_up_in_the_string_table() {
    let ctx = goblin::container::Ctx::new(
        goblin::container::Container::Little,
        goblin::container::Endian::Little,
    );
    let mut symbols: Vec<u8> = Vec::new();
    let entries = [(0u32, 0u32, 0u8), (1, 0x10, 0x12), (4, 0x20, 0x11), (8, 0x30, 0x22), (22, 0x40, 0x12)];
    for (name, value, info) in entries {
        put32(&mut symbols, name);
        put32(&mut symbols, value);
        put32(&mut symbols, 0);
        symbols.push(info);
        symbols.push(0);
        put16(&mut symbols, 1);
    }
    symbols.push(0);
    let strings: &[u8] = b"\0printf\0memmove\0busta";
    let tables = Tables {
        symbols: goblin::elf::Symtab::parse(&symbols, 0, 5, ctx).unwrap(),
        strings: goblin::strtab::Strtab::new_preparsed(strings, 0).unwrap(),
    };
    assert_eq!(
        resolve(&tables),
        vec![
            raw(Some(""), 0x00, 0),
            raw(Some("printf"), 0x12, 0x10),
            raw(Some("ntf"), 0x11, 0x20),
            raw(Some("memmove"), 0x22, 0x30),
            raw(None, 0x12, 0x40),
        ]
    );
}

#[test]
fn resolve_of_empty_tables_is_empty() {
    let tables = Tables {
        symbols: goblin::elf::Symtab::default(),
        strings: goblin::strtab::Strtab::default(),
    };
    assert_eq!(resolve(&tables), Vec::<RawSymbol>::new());
}
