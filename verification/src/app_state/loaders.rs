//! Reading the table of borders from its text: one row of comma-separated
//! fields for each pair of a country and one neighbour.

use vstd::prelude::*;
use vstd::string::*;

use crate::app_state::model::{with_border, BorderEntryView, CountryBordersMap};
use crate::utils::text::{trim, trimmed};

verus! {

/// The fields of each row, as texts.
pub open spec fn rows_view(rows: Seq<Vec<String>>) -> Seq<Seq<Seq<char>>> {
    Seq::new(rows.len(), |i: int| Seq::new(rows[i]@.len(), |j: int| rows[i]@[j]@))
}

/// What a parse of comma-separated text stands for: the rows or the
/// message of the error.
pub open spec fn rows_result_view(r: Result<Vec<Vec<String>>, String>) -> Result<
    Seq<Seq<Seq<char>>>,
    Seq<char>,
> {
    match r {
        Ok(rows) => Ok(rows_view(rows@)),
        Err(message) => Err(message@),
    }
}

/// The records that the `csv` crate reads from a text, the first row being
/// taken for a header or not, or the message of the error that it reports.
pub uninterp spec fn csv_records_of(has_headers: bool, raw: Seq<char>) -> Result<
    Seq<Seq<Seq<char>>>,
    Seq<char>,
>;

/// `csv::ReaderBuilder::from_reader` on the bytes of the text, then
/// `Reader::records` to the end: the fields of every record as strings, or
/// the text of the first error that the reader reports. What the reader
/// makes of a text is named here and not defined.
#[verifier::external_body]
fn read_csv_records(has_headers: bool, raw: &str) -> (r: Result<Vec<Vec<String>>, String>)
    ensures
        rows_result_view(r) == csv_records_of(has_headers, raw@),
{
    let mut reader = csv::ReaderBuilder::new().has_headers(has_headers).from_reader(raw.as_bytes());
    let records: Result<Vec<csv::StringRecord>, csv::Error> = reader.records().collect();
    match records {
        Ok(list) => Ok(list.iter().map(|record| record.iter().map(String::from).collect()).collect()),
        Err(e) => Err(e.to_string()),
    }
}

/// The table that the first `n` rows give. A row of fewer than four fields
/// is passed over; of any other the second field names a country and the
/// fourth one of its neighbours, each without the whitespace around it.
pub open spec fn table_of_rows(rows: Seq<Seq<Seq<char>>>, n: int) -> Seq<BorderEntryView>
    decreases n,
{
    if n <= 0 {
        Seq::empty()
    } else {
        let table = table_of_rows(rows, n - 1);
        let row = rows[n - 1];
        if row.len() < 4 {
            table
        } else {
            with_border(table, trimmed(row[1]), trimmed(row[3]))
        }
    }
}

/// Builds the table of borders from rows of fields.
pub fn borders_from_rows(rows: &Vec<Vec<String>>) -> (table: CountryBordersMap)
    ensures
        table@ == table_of_rows(rows_view(rows@), rows@.len() as int),
        table.wf(),
{
    let ghost v = rows_view(rows@);
    let mut table = CountryBordersMap::new();
    let mut i: usize = 0;
    while i < rows.len()
        invariant
            i <= rows.len(),
            v == rows_view(rows@),
            table@ == table_of_rows(v, i as int),
            table.wf(),
        decreases rows.len() - i,
    {
        let row = &rows[i];
        assert(v[i as int].len() == row@.len());
        if row.len() >= 4 {
            assert(v[i as int][1] == row@[1]@ && v[i as int][3] == row@[3]@);
            let base_country = String::from_str(trim(row[1].as_str()));
            let border_country = String::from_str(trim(row[3].as_str()));
            table.add_border(base_country, border_country);
        }
        i += 1;
    }
    table
}

/// The message for a text that cannot be read as rows.
pub open spec fn csv_error_message(cause: Seq<char>) -> Seq<char> {
    "CSV parse error: "@ + cause
}

/// Reads the table of borders from comma-separated text whose first row is
/// a header.
pub fn parse_country_borders(raw_csv: &str) -> (r: Result<CountryBordersMap, String>)
    ensures
        match r {
            Ok(table) => csv_records_of(true, raw_csv@) matches Ok(rows) && table@
                == table_of_rows(rows, rows.len() as int) && table.wf(),
            Err(message) => csv_records_of(true, raw_csv@) matches Err(cause) && message@
                == csv_error_message(cause),
        },
{
    match read_csv_records(true, raw_csv) {
        Ok(rows) => Ok(borders_from_rows(&rows)),
        Err(cause) => {
            let mut message = String::from_str("CSV parse error: ");
            message.append(cause.as_str());
            Err(message)
        },
    }
}

} // verus!
