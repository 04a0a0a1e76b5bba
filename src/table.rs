//! Conversion of a table's records into text rows, and of text rows into
//! CSV bytes.

use vstd::prelude::*;
use crate::record::{Record, texts, field_names, projected, extract_headers, record_to_csv_row};

verus! {

/// Why a table could not be converted.
#[derive(Clone, Copy, Debug, PartialEq, Eq, Structural)]
pub enum ConvertError {
    /// The table holds no record, so it has no column list either.
    EmptyTable,
}

/// The views of a sequence of text rows.
pub open spec fn rows_text(rows: Seq<Vec<String>>) -> Seq<Seq<Seq<char>>> {
    rows.map_values(|row: Vec<String>| texts(row@))
}

/// The column list of a non-empty table: the field names of its first
/// record.
pub open spec fn header_of(records: Seq<Record>) -> Seq<Seq<char>> {
    field_names(records[0]@)
}

/// The text rows of a non-empty table: the column list, then each record
/// projected onto it, in the order of the records.
pub open spec fn table_text(records: Seq<Record>) -> Seq<Seq<Seq<char>>> {
    seq![header_of(records)] + records.map_values(|r: Record| projected(r@, header_of(records)))
}

/// The bytes of one CSV record holding `cells`, with its line terminator.
pub uninterp spec fn csv_record(cells: Seq<Seq<char>>) -> Seq<u8>;

/// The bytes of a CSV document holding `rows`, one record after another.
pub open spec fn csv_document(rows: Seq<Seq<Seq<char>>>) -> Seq<u8>
    decreases rows.len(),
{
    if rows.len() == 0 {
        Seq::empty()
    } else {
        csv_document(rows.drop_last()) + csv_record(rows.last())
    }
}

/// Relies on `csv::Writer::write_record` and `csv::Writer::into_inner`, with
/// the writer's default settings: the bytes of one record depend on its cells
/// alone. Neither call fails: a first record cannot have a field count other
/// than its own, and writing into a `Vec<u8>` does not fail.
#[verifier::external_body]
fn encode_record(cells: &Vec<String>) -> (r: Vec<u8>)
    ensures
        r@ == csv_record(texts(cells@)),
{
    let mut wtr = csv::Writer::from_writer(Vec::new());
    wtr.write_record(cells).expect("a first record written into memory");
    wtr.into_inner().expect("a flush into memory")
}

/// The text rows of a table: the column list taken from the first record,
/// then every record projected onto it, in order. Fails exactly when there
/// is no record.
pub fn table_rows(records: &Vec<Record>) -> (r: Result<Vec<Vec<String>>, ConvertError>)
    ensures
        r is Err <==> records@.len() == 0,
        r matches Err(e) ==> e == ConvertError::EmptyTable,
        r matches Ok(rows) ==> rows_text(rows@) == table_text(records@),
{
    if records.len() == 0 {
        return Err(ConvertError::EmptyTable);
    }
    let headers = extract_headers(&records[0]);
    let ghost h = header_of(records@);
    let mut rows: Vec<Vec<String>> = Vec::new();
    let hrow = headers.clone();
    proof {
        lemma_rows_text_push(rows@, hrow);
    }
    rows.push(hrow);
    let n = records.len();
    for i in 0..n
        invariant
            n == records@.len(),
            n > 0,
            texts(headers@) == h,
            h == header_of(records@),
            rows_text(rows@) == table_text(records@).take(i + 1),
    {
        let row = record_to_csv_row(&records[i], headers.as_slice());
        proof {
            lemma_rows_text_push(rows@, row);
        }
        rows.push(row);
        assert(rows_text(rows@) =~= table_text(records@).take(i + 2));
    }
    assert(table_text(records@).take(n + 1) =~= table_text(records@));
    Ok(rows)
}

/// Pushing a row adds its view at the end of the views.
proof fn lemma_rows_text_push(rows: Seq<Vec<String>>, row: Vec<String>)
    ensures
        rows_text(rows.push(row)) == rows_text(rows).push(texts(row@)),
{
    assert(rows_text(rows.push(row)) =~= rows_text(rows).push(texts(row@)));
}

/// The CSV bytes of `rows`: the encoding of each row, one after another.
pub fn encode_table(rows: &Vec<Vec<String>>) -> (r: Vec<u8>)
    ensures
        r@ == csv_document(rows_text(rows@)),
{
    let mut out: Vec<u8> = Vec::new();
    let n = rows.len();
    for i in 0..n
        invariant
            n == rows@.len(),
            out@ == csv_document(rows_text(rows@).take(i as int)),
    {
        let mut bytes = encode_record(&rows[i]);
        out.append(&mut bytes);
        assert(rows_text(rows@).take(i + 1).drop_last() =~= rows_text(rows@).take(i as int));
    }
    assert(rows_text(rows@).take(n as int) =~= rows_text(rows@));
    out
}

/// The CSV document of a table: a header record holding the field names of
/// the first record, then one record per table record, in order, each
/// projected onto those names. Fails exactly when there is no record.
pub fn records_to_csv(records: &Vec<Record>) -> (r: Result<Vec<u8>, ConvertError>)
    ensures
        r is Err <==> records@.len() == 0,
        r matches Err(e) ==> e == ConvertError::EmptyTable,
        r matches Ok(bytes) ==> bytes@ == csv_document(table_text(records@)),
{
    match table_rows(records) {
        Ok(rows) => Ok(encode_table(&rows)),
        Err(e) => Err(e),
    }
}

/// Every text row of a table has one cell per column of its column list.
pub proof fn lemma_rows_match_header(records: Seq<Record>)
    requires
        records.len() > 0,
    ensures
        table_text(records).len() == records.len() + 1,
        table_text(records)[0] == header_of(records),
        forall|i: int|
            0 <= i < table_text(records).len() ==> #[trigger] table_text(records)[i].len()
                == header_of(records).len(),
{
    assert forall|i: int| 0 <= i < table_text(records).len() implies #[trigger] table_text(
        records,
    )[i].len() == header_of(records).len() by {
        if i > 0 {
            assert(table_text(records)[i] == projected(records[i - 1]@, header_of(records)));
        }
    }
}

/// The column list depends on the first record alone: two tables whose first
/// records hold the same fields get the same column list, which is that
/// record's field names in its order.
pub proof fn lemma_header_from_first_record(a: Seq<Record>, b: Seq<Record>)
    requires
        a.len() > 0,
        b.len() > 0,
        a[0]@ == b[0]@,
    ensures
        header_of(a) == header_of(b),
        header_of(a) == field_names(a[0]@),
{
}

} // verus!
