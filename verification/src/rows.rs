//! Row sources: a table as a header and its data records.

use crate::text::strings_view;
use vstd::prelude::*;

verus! {

/// A table held in memory: the names of its columns and its data records in
/// order. A record that could not be read is `None`.
#[derive(Debug, Clone, PartialEq, Eq)]
pub struct RowSource {
    pub header: Vec<String>,
    pub records: Vec<Option<Vec<String>>>,
}

pub struct RowSourceView {
    pub header: Seq<Seq<char>>,
    pub records: Seq<Option<Seq<Seq<char>>>>,
}

/// The values of a record, where it was read.
pub open spec fn record_view(record: Option<Vec<String>>) -> Option<Seq<Seq<char>>> {
    match record {
        Some(values) => Some(strings_view(values@)),
        None => None,
    }
}

impl View for RowSource {
    type V = RowSourceView;

    open spec fn view(&self) -> RowSourceView {
        RowSourceView {
            header: strings_view(self.header@),
            records: self.records@.map_values(|r: Option<Vec<String>>| record_view(r)),
        }
    }
}

/// The view of a table that may be missing.
pub open spec fn table_view(table: Option<RowSource>) -> Option<RowSourceView> {
    match table {
        Some(source) => Some(source@),
        None => None,
    }
}

/// What the CSV reader makes of a document whose first record is the header:
/// the header and the records that follow it, or `None` where the header
/// cannot be read.
pub uninterp spec fn csv_table(document: Seq<u8>) -> Option<RowSourceView>;

/// Reads a document with `csv::Reader`, built by `csv::ReaderBuilder` with
/// `has_headers(true)`: `headers` gives the first record, `records` the rest.
/// A record for which the reader reports an error is kept as `None`.
#[verifier::external_body]
fn read_csv(document: &[u8]) -> (table: Option<RowSource>)
    ensures
        table_view(table) == csv_table(document@),
{
    let mut reader = csv::ReaderBuilder::new().has_headers(true).from_reader(document);
    let header = reader.headers().ok()?.iter().map(|f| f.to_string()).collect();
    let records = reader
        .records()
        .map(|r| r.ok().map(|record| record.iter().map(|f| f.to_string()).collect()))
        .collect();
    Some(RowSource { header, records })
}

impl RowSource {
    /// Whether every record from `start` up to `end` was read.
    pub open spec fn readable(records: Seq<Option<Seq<Seq<char>>>>, start: int, end: int) -> bool {
        forall|i: int| start <= i < end ==> (#[trigger] records[i]) is Some
    }

    /// The table that a CSV document holds; `None` where its header cannot
    /// be read.
    pub fn from_csv(document: &[u8]) -> (table: Option<RowSource>)
        ensures
            table_view(table) == csv_table(document@),
    {
        read_csv(document)
    }
}

} // verus!
