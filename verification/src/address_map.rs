//! From a symbol table to the lines of its address map.

use vstd::prelude::*;

use crate::classify::{accepted_of, select, Exclusions};
use crate::decode::{decode, decoded, DecodeError, DecodeFailure};
use crate::emit::{emit, lines_of};
use crate::symbol::{RecordView, SymbolRecord};

verus! {

/// The address map of a table: the lines of its accepted records, in the
/// order of the table.
pub open spec fn address_map_of(records: Seq<RecordView>, excluded: Seq<Seq<char>>) -> Seq<
    Seq<char>,
> {
    lines_of(accepted_of(records, excluded))
}

/// The address map of the image that a byte buffer holds, or the reason why
/// the buffer gives none.
pub open spec fn generated(bytes: Seq<u8>, excluded: Seq<Seq<char>>) -> Result<
    Seq<Seq<char>>,
    DecodeFailure,
> {
    match decoded(bytes) {
        Ok(records) => Ok(address_map_of(records, excluded)),
        Err(e) => Err(e),
    }
}

/// The mathematical content of a result of [`generate`].
pub open spec fn lines_view(r: Result<Vec<String>, DecodeError>) -> Result<
    Seq<Seq<char>>,
    DecodeFailure,
> {
    match r {
        Ok(lines) => Ok(lines.deep_view()),
        Err(e) => Err(e@),
    }
}

/// Classifies every record of `records` and renders the accepted ones, one
/// line each, in the order in which they stand in `records`.
pub fn address_map(records: &[SymbolRecord], exclusions: &Exclusions) -> (lines: Vec<String>)
    ensures
        lines.deep_view() == address_map_of(records.deep_view(), exclusions@),
{
    let accepted = select(records, exclusions);
    emit(accepted.as_slice())
}

/// Reads the symbol table of the ELF image in `bytes` and renders its address
/// map. No record is classified unless the whole table was read.
pub fn generate(bytes: &[u8], exclusions: &Exclusions) -> (r: Result<Vec<String>, DecodeError>)
    ensures
        lines_view(r) == generated(bytes@, exclusions@),
{
    match decode(bytes) {
        Ok(records) => Ok(address_map(records.as_slice(), exclusions)),
        Err(e) => Err(e),
    }
}

} // verus!
