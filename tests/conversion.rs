use dbf2csv::dates::{Date, DateTime};
use dbf2csv::paths::memo_path_for;
use dbf2csv::record::{extract_headers, record_to_csv_row, Record};
use dbf2csv::table::{encode_table, records_to_csv, table_rows, ConvertError};
use dbf2csv::value::{field_value_to_string, FieldValue};

fn record(fields: Vec<(&str, FieldValue)>) -> Record {
    Record {
        fields: fields.into_iter().map(|(n, v)| (n.to_string(), v)).collect(),
    }
}

fn strings(v: &[&str]) -> Vec<String> {
    v.iter().map(|s| s.to_string()).collect()
}

#[test]
fn character_with_payload_is_verbatim() {
    let v = FieldValue::Character(Some("Alice".to_string()));
    assert_eq!(field_value_to_string(&v), "Alice");
}

#[test]
fn missing_character_and_numeric_are_empty() {
    assert_eq!(field_value_to_string(&FieldValue::Character(None)), "");
    assert_eq!(field_value_to_string(&FieldValue::Numeric(None)), "");
    assert_eq!(field_value_to_string(&FieldValue::Float(None)), "");
    assert_eq!(field_value_to_string(&FieldValue::Date(None)), "");
}

#[test]
fn numeric_and_float_render_their_text() {
    let n = FieldValue::Numeric(Some("30".to_string()));
    assert_eq!(field_value_to_string(&n), "30");
    let f = FieldValue::Float(Some("2.5".to_string()));
    assert_eq!(field_value_to_string(&f), "2.5");
}

#[test]
fn logical_renders_one_zero_or_empty() {
    assert_eq!(field_value_to_string(&FieldValue::Logical(Some(true))), "1");
    assert_eq!(field_value_to_string(&FieldValue::Logical(Some(false))), "0");
    assert_eq!(field_value_to_string(&FieldValue::Logical(None)), "");
}

#[test]
fn unrecognized_kind_renders_err_marker() {
    let r = field_value_to_string(&FieldValue::Other);
    assert_eq!(r, "ERR");
    assert_ne!(r, field_value_to_string(&FieldValue::Character(None)));
}

#[test]
fn memo_renders_its_text() {
    let v = FieldValue::Memo("long note".to_string());
    assert_eq!(field_value_to_string(&v), "long note");
    assert_eq!(field_value_to_string(&FieldValue::Memo(String::new())), "");
}

#[test]
fn date_renders_days_since_epoch() {
    let epoch = Date::new(1, 1, 1970).unwrap();
    assert_eq!(epoch.to_unix_days(), 0);
    assert_eq!(field_value_to_string(&FieldValue::Date(Some(epoch))), "0");
    let y2k = Date::new(1, 1, 2000).unwrap();
    assert_eq!(field_value_to_string(&FieldValue::Date(Some(y2k))), "10957");
    let before = Date::new(31, 12, 1969).unwrap();
    assert_eq!(field_value_to_string(&FieldValue::Date(Some(before))), "-1");
    let leap = Date::new(29, 2, 2024).unwrap();
    assert_eq!(leap.to_unix_days(), 19782);
}

#[test]
fn invalid_dates_and_times_are_refused() {
    assert!(Date::new(1, 13, 2000).is_none());
    assert!(Date::new(0, 1, 2000).is_none());
    assert!(Date::new(32, 1, 2000).is_none());
    assert!(Date::new(1, 1, 10000).is_none());
    assert!(Date::new(1, 2, 0).is_none());
    assert!(Date::new(1, 3, 0).is_some());
    let d = Date::new(1, 1, 1970).unwrap();
    assert!(DateTime::new(d, 25, 0, 0).is_none());
    assert!(DateTime::new(d, 0, 61, 0).is_none());
    assert!(DateTime::new(d, 0, 0, 61).is_none());
}

#[test]
fn datetime_renders_unix_timestamp() {
    let d = Date::new(2, 1, 1970).unwrap();
    let t = DateTime::new(d, 1, 1, 1).unwrap();
    assert_eq!(t.to_unix_timestamp(), 90061);
    assert_eq!(field_value_to_string(&FieldValue::DateTime(t)), "90061");
    let e = Date::new(1, 1, 2000).unwrap();
    let te = DateTime::new(e, 0, 0, 0).unwrap();
    assert_eq!(field_value_to_string(&FieldValue::DateTime(te)), "946684800");
}

#[test]
fn normalization_is_repeatable() {
    let v = FieldValue::Date(Some(Date::new(15, 6, 2010).unwrap()));
    assert_eq!(field_value_to_string(&v), field_value_to_string(&v.clone()));
}

#[test]
fn headers_follow_first_record_order() {
    let r = record(vec![
        ("Zeta", FieldValue::Logical(None)),
        ("Alpha", FieldValue::Character(None)),
        ("Mid", FieldValue::Other),
    ]);
    let h = extract_headers(&r);
    assert_eq!(h, strings(&["Zeta", "Alpha", "Mid"]));
    assert_eq!(extract_headers(&r), h);
}

#[test]
fn headers_of_record_without_fields_are_empty() {
    let r = record(vec![]);
    assert!(extract_headers(&r).is_empty());
}

#[test]
fn missing_field_projects_to_empty_cell() {
    let r = record(vec![("Name", FieldValue::Character(Some("Bob".to_string())))]);
    let headers = strings(&["Name", "Age"]);
    assert_eq!(record_to_csv_row(&r, &headers), strings(&["Bob", ""]));
}

#[test]
fn projection_is_by_name_not_position() {
    let r = record(vec![
        ("Age", FieldValue::Numeric(Some("41".to_string()))),
        ("Name", FieldValue::Character(Some("Eve".to_string()))),
    ]);
    let headers = strings(&["Name", "Age"]);
    assert_eq!(record_to_csv_row(&r, &headers), strings(&["Eve", "41"]));
}

#[test]
fn projection_onto_no_columns_is_empty() {
    let r = record(vec![("Name", FieldValue::Character(None))]);
    assert!(record_to_csv_row(&r, &[]).is_empty());
}

#[test]
fn every_row_has_header_length() {
    let records = vec![
        record(vec![("A", FieldValue::Logical(Some(true))), ("B", FieldValue::Other)]),
        record(vec![("A", FieldValue::Logical(Some(false)))]),
        record(vec![
            ("C", FieldValue::Memo("x".to_string())),
            ("B", FieldValue::Numeric(None)),
            ("A", FieldValue::Logical(None)),
        ]),
    ];
    let rows = table_rows(&records).unwrap();
    assert_eq!(rows.len(), 4);
    for row in &rows {
        assert_eq!(row.len(), 2);
    }
    assert_eq!(rows[2], strings(&["0", ""]));
    assert_eq!(rows[3], strings(&["", ""]));
}

#[test]
fn empty_table_fails() {
    let records: Vec<Record> = Vec::new();
    assert_eq!(table_rows(&records), Err(ConvertError::EmptyTable));
    assert_eq!(records_to_csv(&records), Err(ConvertError::EmptyTable));
}

#[test]
fn two_record_table_converts_to_expected_csv() {
    let records = vec![
        record(vec![
            ("Name", FieldValue::Character(Some("Alice".to_string()))),
            ("Age", FieldValue::Numeric(Some("30".to_string()))),
        ]),
        record(vec![
            ("Name", FieldValue::Character(None)),
            ("Age", FieldValue::Numeric(None)),
        ]),
    ];
    let rows = table_rows(&records).unwrap();
    assert_eq!(
        rows,
        vec![strings(&["Name", "Age"]), strings(&["Alice", "30"]), strings(&["", ""])]
    );
    let bytes = records_to_csv(&records).unwrap();
    assert_eq!(String::from_utf8(bytes).unwrap(), "Name,Age\nAlice,30\n,\n");
}

#[test]
fn memo_fields_convert_without_memo_store() {
    let records = vec![record(vec![
        ("Id", FieldValue::Numeric(Some("1".to_string()))),
        ("Note", FieldValue::Memo("from the table".to_string())),
    ])];
    let bytes = records_to_csv(&records).unwrap();
    assert_eq!(String::from_utf8(bytes).unwrap(), "Id,Note\n1,from the table\n");
}

#[test]
fn encoding_quotes_special_cells() {
    let rows = vec![strings(&["a,b", "say \"hi\""]), strings(&[""])];
    let bytes = encode_table(&rows);
    assert_eq!(String::from_utf8(bytes).unwrap(), "\"a,b\",\"say \"\"hi\"\"\"\n\"\"\n");
    assert!(encode_table(&Vec::new()).is_empty());
}

#[test]
fn memo_path_replaces_extension() {
    assert_eq!(memo_path_for("data/TABLE.DBF"), "data/TABLE.FPT");
    assert_eq!(memo_path_for("./x.y.dbf"), "./x.y.FPT");
    assert_eq!(memo_path_for("plain"), "plain.FPT");
    assert_eq!(memo_path_for(".hidden"), ".hidden.FPT");
    assert_eq!(memo_path_for("dir.d/file"), "dir.d/file.FPT");
    assert_eq!(memo_path_for("trail."), "trail.FPT");
}
