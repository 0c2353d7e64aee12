use flatterer_web::error::ServiceError;
use flatterer_web::preview::{
    compose_preview, fields_for_table, parse_metadata, preview_entry, record_value, Record,
};
use flatterer_web::text::u64_to_decimal;

fn record(cells: &[(&str, &str)]) -> Record {
    Record {
        cells: cells.iter().map(|(k, v)| (k.to_string(), v.to_string())).collect(),
    }
}

fn cells_of(r: &Record) -> Vec<(String, String)> {
    r.cells.clone()
}

#[test]
fn decimal_rendering() {
    assert_eq!(u64_to_decimal(0), "0");
    assert_eq!(u64_to_decimal(7), "7");
    assert_eq!(u64_to_decimal(10), "10");
    assert_eq!(u64_to_decimal(123), "123");
    assert_eq!(u64_to_decimal(100000), "100000");
    assert_eq!(u64_to_decimal(u64::MAX), "18446744073709551615");
}

#[test]
fn metadata_parses_into_records() {
    let bytes = b"table_name,field_name,field_type\nmain,a,text\nmain,b,number\n".to_vec();
    let recs = parse_metadata(&bytes).unwrap();
    assert_eq!(recs.len(), 2);
    assert_eq!(
        cells_of(&recs[0]),
        vec![
            ("table_name".to_string(), "main".to_string()),
            ("field_name".to_string(), "a".to_string()),
            ("field_type".to_string(), "text".to_string()),
        ]
    );
    assert_eq!(
        cells_of(&recs[1]),
        vec![
            ("table_name".to_string(), "main".to_string()),
            ("field_name".to_string(), "b".to_string()),
            ("field_type".to_string(), "number".to_string()),
        ]
    );
}

#[test]
fn quoted_cells_are_decoded() {
    // fails if the parser handed the bytes back unchanged
    let bytes = b"table_name,field_title\nmain,\"a, quoted \"\"title\"\"\"\n".to_vec();
    let recs = parse_metadata(&bytes).unwrap();
    assert_eq!(
        record_value(&recs[0], "field_title").unwrap(),
        "a, quoted \"title\""
    );
}

#[test]
fn empty_metadata_has_no_records() {
    let recs = parse_metadata(&Vec::new()).unwrap();
    assert!(recs.is_empty());
}

#[test]
fn ragged_metadata_is_a_storage_fault() {
    let bytes = b"a,b\nonly-one-cell\n".to_vec();
    assert!(matches!(
        parse_metadata(&bytes),
        Err(ServiceError::Storage { .. })
    ));
}

#[test]
fn record_lookup_finds_first_match() {
    let r = record(&[("k", "first"), ("k", "second"), ("other", "x")]);
    assert_eq!(record_value(&r, "k").unwrap(), "first");
    assert_eq!(record_value(&r, "other").unwrap(), "x");
    assert!(record_value(&r, "missing").is_none());
}

#[test]
fn field_selection_by_table() {
    let fields = vec![
        record(&[("table_name", "main"), ("field_name", "a")]),
        record(&[("table_name", "other"), ("field_name", "x")]),
        record(&[("table_name", "main"), ("field_name", "b")]),
    ];
    let selected = fields_for_table(&fields, "main");
    assert_eq!(selected.len(), 2);
    assert_eq!(record_value(&selected[0], "field_name").unwrap(), "a");
    assert_eq!(record_value(&selected[1], "field_name").unwrap(), "b");
}

#[test]
fn table_without_fields_gets_an_empty_entry() {
    let table = record(&[("table_name", "empty"), ("table_title", "empty")]);
    let fields = vec![record(&[("table_name", "main"), ("field_name", "a")])];
    let raw: Vec<Vec<String>> = Vec::new();
    let entry = preview_entry(&table, &fields, &raw).unwrap();
    assert_eq!(entry.table_name, "empty");
    assert!(entry.fields.is_empty());
}

#[test]
fn table_record_without_name_is_a_storage_fault() {
    let table = record(&[("table_title", "main")]);
    let r = preview_entry(&table, &vec![], &Vec::new());
    assert!(matches!(r, Err(ServiceError::Storage { .. })));
}

#[test]
fn extra_data_columns_are_ignored() {
    let table = record(&[("table_name", "main"), ("table_title", "main")]);
    let fields = vec![record(&[("table_name", "main"), ("field_name", "a")])];
    let raw = vec![
        vec!["a".to_string(), "stray".to_string()],
        vec!["1".to_string(), "2".to_string()],
    ];
    let entry = preview_entry(&table, &fields, &raw).unwrap();
    assert_eq!(entry.fields.len(), 1);
    assert_eq!(
        cells_of(&entry.fields[0]),
        vec![
            ("table_name".to_string(), "main".to_string()),
            ("field_name".to_string(), "a".to_string()),
            ("row 0".to_string(), "1".to_string()),
        ]
    );
}

#[test]
fn preview_of_two_fields_and_two_rows() {
    let fields = vec![
        record(&[("table_name", "main"), ("field_name", "a")]),
        record(&[("table_name", "main"), ("field_name", "b")]),
    ];
    let tables = vec![record(&[("table_name", "main"), ("table_title", "main")])];
    let raw_main = vec![
        vec!["a".to_string(), "b".to_string()],
        vec!["1".to_string(), "2".to_string()],
        vec!["3".to_string(), "4".to_string()],
    ];
    let previews = compose_preview(&tables, &fields, &vec![raw_main]).unwrap();
    assert_eq!(previews.len(), 1);
    let entry = &previews[0];
    assert_eq!(entry.table_name, "main");
    assert_eq!(entry.fields.len(), 2);
    assert_eq!(
        cells_of(&entry.fields[0]),
        vec![
            ("table_name".to_string(), "main".to_string()),
            ("field_name".to_string(), "a".to_string()),
            ("row 0".to_string(), "1".to_string()),
            ("row 1".to_string(), "3".to_string()),
        ]
    );
    assert_eq!(
        cells_of(&entry.fields[1]),
        vec![
            ("table_name".to_string(), "main".to_string()),
            ("field_name".to_string(), "b".to_string()),
            ("row 0".to_string(), "2".to_string()),
            ("row 1".to_string(), "4".to_string()),
        ]
    );
}

#[test]
fn test_preview_output() {
    // the whole preview path over engine-shaped artifacts: metadata
    // listings parsed from bytes, then composed with per-table data
    let fields_bytes =
        b"table_name,field_name,field_type,field_title,count\nmain,a,integer,a,2\nmain,b,integer,b,2\n"
            .to_vec();
    let tables_bytes = b"table_name,table_title\nmain,main\n".to_vec();
    let fields = parse_metadata(&fields_bytes).unwrap();
    let tables = parse_metadata(&tables_bytes).unwrap();

    let main_rows = vec![
        vec!["a".to_string(), "b".to_string()],
        vec!["1".to_string(), "2".to_string()],
        vec!["3".to_string(), "4".to_string()],
    ];
    let previews = compose_preview(&tables, &fields, &vec![main_rows]).unwrap();

    assert_eq!(previews.len(), 1);
    let entry = &previews[0];
    assert_eq!(entry.table_name, "main");
    let names: Vec<String> = entry
        .fields
        .iter()
        .map(|f| record_value(f, "field_name").unwrap())
        .collect();
    assert_eq!(names, vec!["a".to_string(), "b".to_string()]);
    assert_eq!(record_value(&entry.fields[0], "row 0").unwrap(), "1");
    assert_eq!(record_value(&entry.fields[0], "row 1").unwrap(), "3");
    assert_eq!(record_value(&entry.fields[1], "row 0").unwrap(), "2");
    assert_eq!(record_value(&entry.fields[1], "row 1").unwrap(), "4");
}
