//! Conversion-invoker configuration: the client's flat option record, the
//! requested output kind, and the exact translation of both into the
//! external flattening engine's configuration.
//!
//! The translation mutually adjusts the output flags so that requesting
//! one concrete format disables the others, caps preview materialization
//! at a small fixed row count, and fills every documented default.

use vstd::prelude::*;
use crate::text;

verus! {

/// The client-supplied conversion parameters, one field per recognized
/// query parameter, each optional with a documented default.
#[derive(Debug)]
pub struct ConversionOptions {
    /// Reuse this existing session instead of staging new input.
    pub id: Option<String>,
    /// Requested output format; the archive is the default.
    pub output_format: Option<String>,
    /// Fetch the input from this URL.
    pub file_url: Option<String>,
    /// Explicit array-selector path into the document.
    pub array_key: Option<String>,
    /// Declared newline-delimited stream framing.
    pub json_lines: Option<bool>,
    /// Name of the main output table; `main` when unset.
    pub main_table_name: Option<String>,
    /// Inline one-to-one sub-tables into their parent.
    pub inline_one_to_one: Option<bool>,
    /// External JSON-schema reference.
    pub json_schema: Option<String>,
    /// Prefix prepended to every output table name.
    pub table_prefix: Option<String>,
    /// Separator joining path segments into field names; `_` when unset.
    pub path_separator: Option<String>,
    /// Where field titles are taken from in the schema.
    pub schema_titles: Option<String>,
    /// Restrict output to the staged fields-metadata listing.
    pub fields_only: Option<bool>,
    /// Restrict output to the staged tables-metadata listing.
    pub tables_only: Option<bool>,
    /// A field list pushed down into sub-tables.
    pub pushdown: Option<String>,
}

/// The response shapes the service can produce.
#[derive(PartialEq, Eq, Structural, Clone, Copy, Debug)]
pub enum OutputKind {
    /// Every produced file, packaged into one archive; the default.
    Archive,
    /// The fields-metadata listing, streamed verbatim.
    Fields,
    /// The tables-metadata listing, streamed verbatim.
    Tables,
    /// A row-sampled, metadata-annotated inline preview.
    Preview,
    /// The produced spreadsheet file.
    Xlsx,
    /// The produced database file.
    Sqlite,
    /// One produced table, streamed verbatim.
    Csv,
}

/// Which output the client asked for: the named formats map to their
/// kinds, and both an absent and an unrecognized format fall back to the
/// archive.
pub open spec fn spec_output_kind(format: Option<Seq<char>>) -> OutputKind {
    match format {
        None => OutputKind::Archive,
        Some(f) => if f == "fields"@ {
            OutputKind::Fields
        } else if f == "tables"@ {
            OutputKind::Tables
        } else if f == "preview"@ {
            OutputKind::Preview
        } else if f == "xlsx"@ {
            OutputKind::Xlsx
        } else if f == "sqlite"@ {
            OutputKind::Sqlite
        } else if f == "csv"@ {
            OutputKind::Csv
        } else {
            OutputKind::Archive
        },
    }
}

/// The view of an optional output-format string.
pub open spec fn spec_format_view(format: Option<String>) -> Option<Seq<char>> {
    match format {
        Some(f) => Some(f@),
        None => None,
    }
}

pub fn output_kind(format: &Option<String>) -> (k: OutputKind)
    ensures
        k == spec_output_kind(spec_format_view(*format)),
{
    match format {
        None => OutputKind::Archive,
        Some(f) => {
            if text::str_eq(f.as_str(), "fields") {
                OutputKind::Fields
            } else if text::str_eq(f.as_str(), "tables") {
                OutputKind::Tables
            } else if text::str_eq(f.as_str(), "preview") {
                OutputKind::Preview
            } else if text::str_eq(f.as_str(), "xlsx") {
                OutputKind::Xlsx
            } else if text::str_eq(f.as_str(), "sqlite") {
                OutputKind::Sqlite
            } else if text::str_eq(f.as_str(), "csv") {
                OutputKind::Csv
            } else {
                OutputKind::Archive
            }
        },
    }
}

/// An optional string parameter, or its default.
pub open spec fn spec_or_str(o: Option<String>, default: Seq<char>) -> Seq<char> {
    match o {
        Some(s) => s@,
        None => default,
    }
}

/// An optional flag parameter, or its default.
pub open spec fn spec_or_flag(o: Option<bool>, default: bool) -> bool {
    match o {
        Some(b) => b,
        None => default,
    }
}

/// The number of rows per table a preview materializes.
pub open spec fn preview_row_cap() -> u64 {
    10
}

/// The external engine's configuration, as this service fills it.
#[derive(Debug)]
pub struct EngineConfig {
    /// Write per-table CSV files.
    pub csv: bool,
    /// Write the spreadsheet file.
    pub xlsx: bool,
    /// Write the database file.
    pub sqlite: bool,
    /// Replace a pre-existing output directory.
    pub force: bool,
    /// Name of the main output table.
    pub main_table_name: String,
    /// Inline one-to-one sub-tables into their parent.
    pub inline_one_to_one: bool,
    /// External JSON-schema reference; empty for none.
    pub schema: String,
    /// Prefix prepended to every output table name; empty for none.
    pub table_prefix: String,
    /// Separator joining path segments into field names.
    pub path_separator: String,
    /// Where field titles are taken from in the schema; empty for none.
    pub schema_titles: String,
    /// Treat the input as a newline-delimited stream of values.
    pub json_stream: bool,
    /// Cap on materialized rows per table; zero for no cap.
    pub preview_rows: u64,
    /// Hand the staged fields-metadata override to the engine.
    pub use_fields_csv: bool,
    /// Restrict output to the fields named in that override.
    pub only_fields: bool,
    /// Hand the staged tables-metadata override to the engine.
    pub use_tables_csv: bool,
    /// Restrict output to the tables named in that override.
    pub only_tables: bool,
    /// Field list pushed down into sub-tables; empty for none.
    pub pushdown: Vec<String>,
    /// Array-selector path; empty to process the document root.
    pub path: Vec<String>,
}

/// Translates the client's options into the engine's configuration.
///
/// `json_lines` and `array_path` arrive already resolved — stream framing
/// may have been sniffed rather than declared, and an absent selector is
/// the empty path.  `has_fields_csv` and `has_tables_csv` say whether the
/// optional metadata overrides were staged in the workspace.
pub fn build_engine_config(
    q: &ConversionOptions,
    json_lines: bool,
    array_path: &str,
    has_fields_csv: bool,
    has_tables_csv: bool,
) -> (c: EngineConfig)
    ensures
        ({
            let kind = spec_output_kind(spec_format_view(q.output_format));
            &&& c.csv == (kind is Archive || kind is Csv || kind is Preview)
            &&& c.xlsx == (kind is Xlsx)
            &&& c.sqlite == (kind is Sqlite)
            &&& c.force == true
            &&& c.main_table_name@ == spec_or_str(q.main_table_name, "main"@)
            &&& c.inline_one_to_one == spec_or_flag(q.inline_one_to_one, false)
            &&& c.schema@ == spec_or_str(q.json_schema, ""@)
            &&& c.table_prefix@ == spec_or_str(q.table_prefix, ""@)
            &&& c.path_separator@ == spec_or_str(q.path_separator, "_"@)
            &&& c.schema_titles@ == spec_or_str(q.schema_titles, ""@)
            &&& c.json_stream == json_lines
            &&& c.preview_rows == (if kind is Preview {
                preview_row_cap()
            } else {
                0u64
            })
            &&& c.use_fields_csv == has_fields_csv
            &&& c.only_fields == spec_or_flag(q.fields_only, false)
            &&& c.use_tables_csv == has_tables_csv
            &&& c.only_tables == spec_or_flag(q.tables_only, false)
            &&& (match q.pushdown {
                Some(p) => if p@.len() > 0 {
                    c.pushdown@.len() == 1 && c.pushdown@[0]@ == p@
                } else {
                    c.pushdown@.len() == 0
                },
                None => c.pushdown@.len() == 0,
            })
            &&& (if array_path@.len() > 0 && !json_lines {
                c.path@.len() == 1 && c.path@[0]@ == array_path@
            } else {
                c.path@.len() == 0
            })
        }),
{
    let kind = output_kind(&q.output_format);
    let csv = matches!(kind, OutputKind::Archive) || matches!(kind, OutputKind::Csv) || matches!(
        kind,
        OutputKind::Preview,
    );
    let main_table_name = match &q.main_table_name {
        Some(s) => s.clone(),
        None => "main".to_owned(),
    };
    let schema = match &q.json_schema {
        Some(s) => s.clone(),
        None => "".to_owned(),
    };
    let table_prefix = match &q.table_prefix {
        Some(s) => s.clone(),
        None => "".to_owned(),
    };
    let path_separator = match &q.path_separator {
        Some(s) => s.clone(),
        None => "_".to_owned(),
    };
    let schema_titles = match &q.schema_titles {
        Some(s) => s.clone(),
        None => "".to_owned(),
    };
    let mut pushdown: Vec<String> = Vec::new();
    match &q.pushdown {
        Some(p) => {
            if !p.as_str().is_empty() {
                pushdown.push(p.clone());
            }
        },
        None => {},
    }
    let mut path: Vec<String> = Vec::new();
    if !array_path.is_empty() && !json_lines {
        path.push(array_path.to_owned());
    }
    EngineConfig {
        csv,
        xlsx: matches!(kind, OutputKind::Xlsx),
        sqlite: matches!(kind, OutputKind::Sqlite),
        force: true,
        main_table_name,
        inline_one_to_one: match &q.inline_one_to_one {
            Some(b) => *b,
            None => false,
        },
        schema,
        table_prefix,
        path_separator,
        schema_titles,
        json_stream: json_lines,
        preview_rows: if matches!(kind, OutputKind::Preview) {
            10
        } else {
            0
        },
        use_fields_csv: has_fields_csv,
        only_fields: match &q.fields_only {
            Some(b) => *b,
            None => false,
        },
        use_tables_csv: has_tables_csv,
        only_tables: match &q.tables_only {
            Some(b) => *b,
            None => false,
        },
        pushdown,
        path,
    }
}

} // verus!
