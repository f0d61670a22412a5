//! The symbol table of a binary artifact: what the decoder needs to turn the
//! bytes of a frame back into a log record.

use vstd::prelude::*;

verus! {

/// `defmt_decoder::Table`, the symbol table of an artifact. The library
/// carries it from the parser to the caller and reads nothing in it.
#[verifier::external_type_specification]
#[verifier::external_body]
pub struct ExSymbolTable(defmt_decoder::Table);

/// `anyhow::Error`, the parser's account of a failure. The library carries
/// it to the caller and reads nothing in it.
#[verifier::external_type_specification]
#[verifier::external_body]
pub struct ExFault(anyhow::Error);

/// What a table says, as bytes: its entries, its timestamp format, its bit
/// flags and its encoding. How they are laid out is the decoder's own
/// affair, and how the table stores them in memory is no part of it.
pub uninterp spec fn table_contents(table: defmt_decoder::Table) -> Seq<u8>;

/// How the search for a table in an artifact ends.
pub enum Parsed {
    /// The artifact holds a table, with these contents.
    Found(Seq<u8>),
    /// The artifact is well formed and holds no table section.
    Absent,
    /// The artifact, or the table in it, could not be read.
    Invalid,
}

/// How `defmt_decoder::Table::parse` ends on the bytes of an artifact.
pub uninterp spec fn strict_parse(elf: Seq<u8>) -> Parsed;

/// How `defmt_decoder::Table::parse_ignore_version` ends on the bytes of an
/// artifact.
pub uninterp spec fn tolerant_parse(elf: Seq<u8>) -> Parsed;

/// How the chosen parser ends on the bytes of an artifact.
pub open spec fn chosen_parse(elf: Seq<u8>, tolerant: bool) -> Parsed {
    if tolerant {
        tolerant_parse(elf)
    } else {
        strict_parse(elf)
    }
}

/// Why no table could be had from an artifact.
#[derive(Debug)]
pub enum TableError {
    /// The artifact holds no table section.
    SectionNotFound,
    /// The parser gave up, with its own account of why.
    Invalid(anyhow::Error),
}

/// Calls `defmt_decoder::Table::parse`, which checks that the version of the
/// wire format in the artifact is one that the decoder knows. The claim is
/// only that the kind of answer, and the table if there is one, depend on
/// nothing but the bytes.
#[verifier::external_body]
fn parse_strict(elf: &[u8]) -> (answer: Result<Option<defmt_decoder::Table>, anyhow::Error>)
    ensures
        answer matches Ok(Some(table)) ==> strict_parse(elf@) == Parsed::Found(
            table_contents(table),
        ),
        answer matches Ok(None) ==> strict_parse(elf@) == Parsed::Absent,
        answer is Err ==> strict_parse(elf@) == Parsed::Invalid,
{
    defmt_decoder::Table::parse(elf)
}

/// Calls `defmt_decoder::Table::parse_ignore_version`, which reads the table
/// whatever the version in the artifact says. The claim is only that the
/// kind of answer, and the table if there is one, depend on nothing but the
/// bytes.
#[verifier::external_body]
fn parse_tolerant(elf: &[u8]) -> (answer: Result<Option<defmt_decoder::Table>, anyhow::Error>)
    ensures
        answer matches Ok(Some(table)) ==> tolerant_parse(elf@) == Parsed::Found(
            table_contents(table),
        ),
        answer matches Ok(None) ==> tolerant_parse(elf@) == Parsed::Absent,
        answer is Err ==> tolerant_parse(elf@) == Parsed::Invalid,
{
    defmt_decoder::Table::parse_ignore_version(elf)
}

/// Turns a parser's answer into a table or the reason why there is none.
pub fn table_from(answer: Result<Option<defmt_decoder::Table>, anyhow::Error>) -> (outcome: Result<
    defmt_decoder::Table,
    TableError,
>)
    ensures
        answer matches Ok(Some(table)) ==> outcome == Ok::<defmt_decoder::Table, TableError>(
            table,
        ),
        answer matches Ok(None) ==> outcome == Err::<defmt_decoder::Table, TableError>(
            TableError::SectionNotFound,
        ),
        answer matches Err(fault) ==> outcome == Err::<defmt_decoder::Table, TableError>(
            TableError::Invalid(fault),
        ),
{
    match answer {
        Ok(Some(table)) => Ok(table),
        Ok(None) => Err(TableError::SectionNotFound),
        Err(fault) => Err(TableError::Invalid(fault)),
    }
}

/// Reads the symbol table from the bytes of an artifact, with the strict
/// parser or, where `tolerant` is set, with the one that ignores the version.
///
/// The table is the one that the parser finds. An artifact without a table
/// section is an error of its own, apart from one that cannot be read.
pub fn load_table(elf: &[u8], tolerant: bool) -> (outcome: Result<defmt_decoder::Table, TableError>)
    ensures
        chosen_parse(elf@, tolerant) matches Parsed::Found(contents) ==> outcome is Ok
            && table_contents(outcome->Ok_0) == contents,
        chosen_parse(elf@, tolerant) is Absent ==> outcome is Err
            && outcome->Err_0 is SectionNotFound,
        chosen_parse(elf@, tolerant) is Invalid ==> outcome is Err && outcome->Err_0 is Invalid,
{
    if tolerant {
        table_from(parse_tolerant(elf))
    } else {
        table_from(parse_strict(elf))
    }
}

/// What to tell the user when the artifact holds no table section.
pub fn section_not_found_message() -> (text: &'static str)
    ensures
        text@ == "`.defmt` section not found in ELF file"@,
{
    "`.defmt` section not found in ELF file"
}

} // verus!
