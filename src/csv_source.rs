//! What this library takes from the `csv` crate.

use vstd::prelude::*;
use crate::text::{rows_texts, texts};

verus! {

#[verifier::external_type_specification]
#[verifier::external_body]
pub struct ExCsvError(csv::Error);

/// The outcome of reading `data` as CSV with the `csv` crate's default
/// reader: the header row and the data rows, or `None` where reading fails.
pub uninterp spec fn csv_table_of(data: Seq<u8>) -> Option<(Seq<Seq<char>>, Seq<Seq<Seq<char>>>)>;

/// Relies on csv::Reader::from_reader (default settings: the first record is
/// the header row), its `headers` and `records`: reads the header row and then
/// every data row of `data`, each field as a string, and fails on the first
/// error (bad UTF-8, a record whose field count differs from the first).
#[verifier::external_body]
pub(crate) fn read_csv(data: &[u8]) -> (r: Result<(Vec<String>, Vec<Vec<String>>), csv::Error>)
    ensures
        match r {
            Ok((headers, rows)) => csv_table_of(data@) == Some((texts(headers@), rows_texts(rows@))),
            Err(_) => csv_table_of(data@) is None,
        },
{
    let mut reader = csv::Reader::from_reader(data);
    let headers = reader.headers()?.iter().map(String::from).collect();
    let rows = reader
        .records()
        .map(|rec| rec.map(|r| r.iter().map(String::from).collect()))
        .collect::<Result<Vec<Vec<String>>, csv::Error>>()?;
    Ok((headers, rows))
}

} // verus!
