//! Records of a table, the column list taken from a record, and the
//! projection of a record onto a column list.

use vstd::prelude::*;
use crate::value::{FieldValue, normalized, field_value_to_string};

verus! {

/// One row of a table: its field names with their values, in the order of
/// the table's fields.
#[derive(Clone, Debug, PartialEq)]
pub struct Record {
    pub fields: Vec<(String, FieldValue)>,
}

impl View for Record {
    type V = Seq<(Seq<char>, FieldValue)>;

    open spec fn view(&self) -> Seq<(Seq<char>, FieldValue)> {
        self.fields@.map_values(|p: (String, FieldValue)| (p.0@, p.1))
    }
}

/// The views of a sequence of strings.
pub open spec fn texts(s: Seq<String>) -> Seq<Seq<char>> {
    s.map_values(|t: String| t@)
}

/// Pushing a string adds its view at the end of the views.
proof fn lemma_texts_push(s: Seq<String>, x: String)
    ensures
        texts(s.push(x)) == texts(s).push(x@),
{
    assert(texts(s.push(x)) =~= texts(s).push(x@));
}

/// The field names of a record, in its order.
pub open spec fn field_names(fields: Seq<(Seq<char>, FieldValue)>) -> Seq<Seq<char>> {
    fields.map_values(|p: (Seq<char>, FieldValue)| p.0)
}

/// The value of the last field of `fields` named `name`, if there is one.
pub open spec fn lookup(fields: Seq<(Seq<char>, FieldValue)>, name: Seq<char>) -> Option<FieldValue>
    decreases fields.len(),
{
    if fields.len() == 0 {
        None
    } else if fields.last().0 == name {
        Some(fields.last().1)
    } else {
        lookup(fields.drop_last(), name)
    }
}

/// The text cell of column `name` for a record: the rendering of its value
/// of that name, or empty when the record has no such field.
pub open spec fn cell_text(fields: Seq<(Seq<char>, FieldValue)>, name: Seq<char>) -> Seq<char> {
    match lookup(fields, name) {
        Some(v) => normalized(v),
        None => Seq::empty(),
    }
}

/// The text row of a record projected onto the column list `headers`.
pub open spec fn projected(fields: Seq<(Seq<char>, FieldValue)>, headers: Seq<Seq<char>>) -> Seq<
    Seq<char>,
> {
    headers.map_values(|h: Seq<char>| cell_text(fields, h))
}

/// The column list of a table whose first record is `first_record`: its field
/// names, in its order.
pub fn extract_headers(first_record: &Record) -> (r: Vec<String>)
    ensures
        texts(r@) == field_names(first_record@),
{
    let mut headers: Vec<String> = Vec::new();
    let n = first_record.fields.len();
    for i in 0..n
        invariant
            n == first_record.fields@.len(),
            texts(headers@) == field_names(first_record@).take(i as int),
    {
        let name = first_record.fields[i].0.clone();
        assert(name@ == field_names(first_record@)[i as int]);
        proof {
            lemma_texts_push(headers@, name);
        }
        headers.push(name);
        assert(texts(headers@) =~= field_names(first_record@).take(i + 1));
    }
    assert(field_names(first_record@).take(n as int) =~= field_names(first_record@));
    headers
}

/// Index of the last field of `record` named `name`, if there is one.
fn find_field(record: &Record, name: &String) -> (r: Option<usize>)
    ensures
        match r {
            Some(i) => i < record.fields@.len() && lookup(record@, name@) == Some(
                record.fields@[i as int].1,
            ),
            None => lookup(record@, name@) is None,
        },
{
    let mut found: Option<usize> = None;
    let n = record.fields.len();
    for i in 0..n
        invariant
            n == record.fields@.len(),
            match found {
                Some(j) => j < i && lookup(record@.take(i as int), name@) == Some(
                    record.fields@[j as int].1,
                ),
                None => lookup(record@.take(i as int), name@) is None,
            },
    {
        assert(record@.take(i + 1).drop_last() =~= record@.take(i as int));
        if record.fields[i].0 == *name {
            found = Some(i);
        }
    }
    assert(record@.take(n as int) =~= record@);
    found
}

/// The text row of `record` for the column list `headers`: one cell per
/// column, holding the rendering of the record's value of that name, or
/// empty where the record has no such field.
pub fn record_to_csv_row(record: &Record, headers: &[String]) -> (r: Vec<String>)
    ensures
        r@.len() == headers@.len(),
        texts(r@) == projected(record@, texts(headers@)),
        forall|i: int|
            0 <= i < headers@.len() && lookup(record@, headers@[i]@) is None ==> #[trigger] r@[i]@
                == Seq::<char>::empty(),
{
    let mut row: Vec<String> = Vec::new();
    let n = headers.len();
    for i in 0..n
        invariant
            n == headers@.len(),
            texts(row@) == projected(record@, texts(headers@)).take(i as int),
    {
        let cell = match find_field(record, &headers[i]) {
            Some(j) => field_value_to_string(&record.fields[j].1),
            None => String::new(),
        };
        assert(cell@ == projected(record@, texts(headers@))[i as int]);
        proof {
            lemma_texts_push(row@, cell);
        }
        row.push(cell);
        assert(texts(row@) =~= projected(record@, texts(headers@)).take(i + 1));
    }
    assert(projected(record@, texts(headers@)).take(n as int) =~= projected(
        record@,
        texts(headers@),
    ));
    assert forall|i: int| 0 <= i < headers@.len() implies #[trigger] row@[i]@ == cell_text(
        record@,
        headers@[i]@,
    ) by {
        assert(texts(headers@)[i] == headers@[i]@);
        assert(texts(row@)[i] == row@[i]@);
    }
    row
}

} // verus!
