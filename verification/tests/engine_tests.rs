use flatterer_web::engine::{build_engine_config, output_kind, ConversionOptions, OutputKind};

fn options() -> ConversionOptions {
    ConversionOptions {
        id: None,
        output_format: None,
        file_url: None,
        array_key: None,
        json_lines: None,
        main_table_name: None,
        inline_one_to_one: None,
        json_schema: None,
        table_prefix: None,
        path_separator: None,
        schema_titles: None,
        fields_only: None,
        tables_only: None,
        pushdown: None,
    }
}

#[test]
fn formats_map_to_kinds() {
    assert_eq!(output_kind(&None), OutputKind::Archive);
    assert_eq!(output_kind(&Some("zip".to_string())), OutputKind::Archive);
    assert_eq!(output_kind(&Some("fields".to_string())), OutputKind::Fields);
    assert_eq!(output_kind(&Some("tables".to_string())), OutputKind::Tables);
    assert_eq!(output_kind(&Some("preview".to_string())), OutputKind::Preview);
    assert_eq!(output_kind(&Some("xlsx".to_string())), OutputKind::Xlsx);
    assert_eq!(output_kind(&Some("sqlite".to_string())), OutputKind::Sqlite);
    assert_eq!(output_kind(&Some("csv".to_string())), OutputKind::Csv);
    // anything unrecognized falls back to the archive
    assert_eq!(output_kind(&Some("parquet".to_string())), OutputKind::Archive);
}

#[test]
fn archive_request_keeps_default_outputs() {
    let c = build_engine_config(&options(), false, "", false, false);
    assert!(c.csv);
    assert!(!c.xlsx);
    assert!(!c.sqlite);
    assert!(c.force);
    assert_eq!(c.preview_rows, 0);
    assert_eq!(c.main_table_name, "main");
    assert_eq!(c.path_separator, "_");
    assert_eq!(c.schema, "");
    assert_eq!(c.table_prefix, "");
    assert_eq!(c.schema_titles, "");
    assert!(!c.inline_one_to_one);
    assert!(!c.only_fields);
    assert!(!c.only_tables);
    assert!(c.pushdown.is_empty());
    assert!(c.path.is_empty());
}

#[test]
fn concrete_formats_disable_the_others() {
    let mut q = options();
    q.output_format = Some("xlsx".to_string());
    let c = build_engine_config(&q, false, "", false, false);
    assert!(!c.csv && c.xlsx && !c.sqlite);

    q.output_format = Some("sqlite".to_string());
    let c = build_engine_config(&q, false, "", false, false);
    assert!(!c.csv && !c.xlsx && c.sqlite);

    q.output_format = Some("csv".to_string());
    let c = build_engine_config(&q, false, "", false, false);
    assert!(c.csv && !c.xlsx && !c.sqlite);

    q.output_format = Some("fields".to_string());
    let c = build_engine_config(&q, false, "", false, false);
    assert!(!c.csv && !c.xlsx && !c.sqlite);
}

#[test]
fn preview_caps_rows_and_keeps_csv() {
    let mut q = options();
    q.output_format = Some("preview".to_string());
    let c = build_engine_config(&q, false, "", false, false);
    assert!(c.csv && !c.xlsx && !c.sqlite);
    assert_eq!(c.preview_rows, 10);
}

#[test]
fn client_options_are_passed_through() {
    let mut q = options();
    q.main_table_name = Some("orders".to_string());
    q.inline_one_to_one = Some(true);
    q.json_schema = Some("https://example.com/schema.json".to_string());
    q.table_prefix = Some("pfx_".to_string());
    q.path_separator = Some(".".to_string());
    q.schema_titles = Some("underscore_slug".to_string());
    q.fields_only = Some(true);
    q.tables_only = Some(true);
    q.pushdown = Some("id".to_string());
    let c = build_engine_config(&q, true, "", true, true);
    assert_eq!(c.main_table_name, "orders");
    assert!(c.inline_one_to_one);
    assert_eq!(c.schema, "https://example.com/schema.json");
    assert_eq!(c.table_prefix, "pfx_");
    assert_eq!(c.path_separator, ".");
    assert_eq!(c.schema_titles, "underscore_slug");
    assert!(c.json_stream);
    assert!(c.use_fields_csv && c.only_fields);
    assert!(c.use_tables_csv && c.only_tables);
    assert_eq!(c.pushdown, vec!["id".to_string()]);
}

#[test]
fn empty_pushdown_is_no_pushdown() {
    let mut q = options();
    q.pushdown = Some("".to_string());
    let c = build_engine_config(&q, false, "", false, false);
    assert!(c.pushdown.is_empty());
}

#[test]
fn selector_path_only_without_stream_mode() {
    let q = options();
    let c = build_engine_config(&q, false, "results", false, false);
    assert_eq!(c.path, vec!["results".to_string()]);
    // in stream mode the selector is not applied
    let c = build_engine_config(&q, true, "results", false, false);
    assert!(c.path.is_empty());
    assert!(c.json_stream);
}
