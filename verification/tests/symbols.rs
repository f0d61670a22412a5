use defmt_logger::symbols::{load_table, section_not_found_message, table_from, TableError};
use object::write::{Object, Symbol, SymbolSection};
use object::{
    Architecture, BinaryFormat, Endianness, SectionKind, SymbolFlags, SymbolKind, SymbolScope,
};

fn with_absolute_symbol(object: &mut Object, name: String) {
    object.add_symbol(Symbol {
        name: name.into_bytes(),
        value: 0,
        size: 0,
        kind: SymbolKind::Data,
        scope: SymbolScope::Compilation,
        weak: false,
        section: SymbolSection::Absolute,
        flags: SymbolFlags::None,
    });
}

fn artifact(version: &str, encoding: &str, entries: &[(u64, &str, &str)]) -> Vec<u8> {
    let mut object = Object::new(BinaryFormat::Elf, Architecture::X86_64, Endianness::Little);
    for (n, (index, tag, text)) in entries.iter().enumerate() {
        let section = object.add_section(
            Vec::new(),
            format!(".defmt.{}", n).into_bytes(),
            SectionKind::ReadOnlyData,
        );
        object.set_section_data(section, vec![0u8], 1);
        let name = format!(
            "{{\"package\":\"demo\",\"tag\":\"{}\",\"data\":\"{}\",\"disambiguator\":\"{}\",\"crate_name\":\"demo\"}}",
            tag, text, n
        );
        object.add_symbol(Symbol {
            name: name.into_bytes(),
            value: *index,
            size: 1,
            kind: SymbolKind::Data,
            scope: SymbolScope::Linkage,
            weak: false,
            section: SymbolSection::Section(section),
            flags: SymbolFlags::None,
        });
    }
    with_absolute_symbol(&mut object, format!("_defmt_version_ = {}", version));
    with_absolute_symbol(&mut object, format!("_defmt_encoding_ = {}", encoding));
    object.write().unwrap()
}

fn artifact_without_table() -> Vec<u8> {
    let mut object = Object::new(BinaryFormat::Elf, Architecture::X86_64, Endianness::Little);
    let section = object.add_section(Vec::new(), b".rodata".to_vec(), SectionKind::ReadOnlyData);
    object.set_section_data(section, vec![1u8, 2, 3], 1);
    object.write().unwrap()
}

#[test]
fn a_table_is_found_by_either_parser() {
    let elf = artifact("4", "rzcobs", &[(1, "defmt_info", "Hello")]);
    let strict = load_table(&elf, false).unwrap();
    assert!(!strict.is_empty());
    assert_eq!(strict.indices().collect::<Vec<usize>>(), vec![1]);
    assert_eq!(strict.encoding(), defmt_decoder::Encoding::Rzcobs);
    let tolerant = load_table(&elf, true).unwrap();
    assert_eq!(tolerant, strict);
}

#[test]
fn an_artifact_without_the_section_is_reported_as_such() {
    let elf = artifact_without_table();
    assert!(matches!(load_table(&elf, false), Err(TableError::SectionNotFound)));
    assert!(matches!(load_table(&elf, true), Err(TableError::SectionNotFound)));
}

#[test]
fn bytes_that_are_no_artifact_are_invalid() {
    assert!(matches!(load_table(b"not an artifact", false), Err(TableError::Invalid(_))));
    assert!(matches!(load_table(b"not an artifact", true), Err(TableError::Invalid(_))));
    assert!(matches!(load_table(b"", false), Err(TableError::Invalid(_))));
}

#[test]
fn an_unknown_version_stops_the_strict_parser_only() {
    let elf = artifact("999", "raw", &[(1, "defmt_info", "Hello")]);
    assert!(matches!(load_table(&elf, false), Err(TableError::Invalid(_))));
    let table = load_table(&elf, true).unwrap();
    assert_eq!(table.encoding(), defmt_decoder::Encoding::Raw);
}

#[test]
fn the_parsers_own_account_is_kept() {
    let elf = artifact("999", "raw", &[(1, "defmt_info", "Hello")]);
    match load_table(&elf, false) {
        Err(TableError::Invalid(fault)) => {
            assert!(format!("{}", fault).contains("version"));
        }
        _ => panic!("the strict parser accepted an unknown version"),
    }
}

#[test]
fn table_from_maps_each_answer() {
    assert!(matches!(table_from(Ok(None)), Err(TableError::SectionNotFound)));
    let fault = defmt_decoder::Table::parse(b"junk").unwrap_err();
    let text = format!("{}", fault);
    match table_from(Err(fault)) {
        Err(TableError::Invalid(kept)) => assert_eq!(format!("{}", kept), text),
        _ => panic!("a fault was not passed on"),
    }
    let elf = artifact("4", "raw", &[(7, "defmt_warn", "careful")]);
    let table = defmt_decoder::Table::parse(&elf).unwrap().unwrap();
    assert_eq!(table_from(Ok(Some(table.clone()))).unwrap(), table);
}

#[test]
fn the_message_for_a_missing_section() {
    assert_eq!(section_not_found_message(), "`.defmt` section not found in ELF file");
}
