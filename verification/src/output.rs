//! Output materialization: which produced file each requested format
//! streams back, under what media type and suggested download name, and
//! the rule that a file the conversion did not produce is the client's
//! `NotFound`, never a crash.

use vstd::prelude::*;
use vstd::string::StringExecFns;
use crate::engine::OutputKind;
use crate::error::ServiceError;
use crate::text;

verus! {

/// The relative path, inside the conversion's output directory, of the
/// file a format streams back; the preview and the archive are composed
/// rather than streamed from one file.
pub open spec fn spec_output_file_rel_path(kind: OutputKind, main_table: Seq<char>) -> Option<
    Seq<char>,
> {
    match kind {
        OutputKind::Fields => Some("fields.csv"@),
        OutputKind::Tables => Some("tables.csv"@),
        OutputKind::Xlsx => Some("output.xlsx"@),
        OutputKind::Sqlite => Some("sqlite.db"@),
        OutputKind::Csv => Some("csv/"@ + main_table + ".csv"@),
        OutputKind::Preview => None,
        OutputKind::Archive => None,
    }
}

pub fn output_file_rel_path(kind: OutputKind, main_table: &str) -> (r: Option<String>)
    ensures
        (match r {
            Some(p) => spec_output_file_rel_path(kind, main_table@) == Some(p@),
            None => spec_output_file_rel_path(kind, main_table@) is None,
        }),
{
    match kind {
        OutputKind::Fields => Some("fields.csv".to_owned()),
        OutputKind::Tables => Some("tables.csv".to_owned()),
        OutputKind::Xlsx => Some("output.xlsx".to_owned()),
        OutputKind::Sqlite => Some("sqlite.db".to_owned()),
        OutputKind::Csv => {
            let mut p = "csv/".to_owned();
            p.append(main_table);
            p.append(".csv");
            Some(p)
        },
        OutputKind::Preview => None,
        OutputKind::Archive => None,
    }
}

/// The media type of the response each output kind is served with.
pub open spec fn spec_media_type(kind: OutputKind) -> Seq<char> {
    match kind {
        OutputKind::Fields => "text/csv"@,
        OutputKind::Tables => "text/csv"@,
        OutputKind::Csv => "text/csv"@,
        OutputKind::Xlsx => "application/vnd.openxmlformats-officedocument.spreadsheetml.sheet"@,
        OutputKind::Sqlite => "application/octet-stream"@,
        OutputKind::Preview => "application/json"@,
        OutputKind::Archive => "application/zip"@,
    }
}

pub fn media_type(kind: OutputKind) -> (r: String)
    ensures
        r@ == spec_media_type(kind),
{
    match kind {
        OutputKind::Fields => "text/csv".to_owned(),
        OutputKind::Tables => "text/csv".to_owned(),
        OutputKind::Csv => "text/csv".to_owned(),
        OutputKind::Xlsx => "application/vnd.openxmlformats-officedocument.spreadsheetml.sheet".to_owned(),
        OutputKind::Sqlite => "application/octet-stream".to_owned(),
        OutputKind::Preview => "application/json".to_owned(),
        OutputKind::Archive => "application/zip".to_owned(),
    }
}

/// The suggested download file name for the formats served as an
/// attachment; the preview is returned inline.
pub open spec fn spec_download_filename(kind: OutputKind) -> Option<Seq<char>> {
    match kind {
        OutputKind::Fields => Some("flatterer-fields.csv"@),
        OutputKind::Tables => Some("flatterer-tables.csv"@),
        OutputKind::Csv => Some("flatterer-output.csv"@),
        OutputKind::Xlsx => Some("flatterer-output.xlsx"@),
        OutputKind::Sqlite => Some("flatterer-output.db"@),
        OutputKind::Archive => Some("flatterer-download.zip"@),
        OutputKind::Preview => None,
    }
}

pub fn download_filename(kind: OutputKind) -> (r: Option<String>)
    ensures
        (match r {
            Some(n) => spec_download_filename(kind) == Some(n@),
            None => spec_download_filename(kind) is None,
        }),
{
    match kind {
        OutputKind::Fields => Some("flatterer-fields.csv".to_owned()),
        OutputKind::Tables => Some("flatterer-tables.csv".to_owned()),
        OutputKind::Csv => Some("flatterer-output.csv".to_owned()),
        OutputKind::Xlsx => Some("flatterer-output.xlsx".to_owned()),
        OutputKind::Sqlite => Some("flatterer-output.db".to_owned()),
        OutputKind::Archive => Some("flatterer-download.zip".to_owned()),
        OutputKind::Preview => None,
    }
}

/// Whether the produced bundle holds a file under this relative path.
pub open spec fn spec_bundle_contains(bundle: Seq<String>, rel: Seq<char>) -> bool {
    exists|i: int| 0 <= i < bundle.len() && bundle[i]@ == rel
}

/// Resolves a single-file format against what the conversion actually
/// produced: the file's relative path when the bundle holds it, and a
/// `NotFound` naming the missing path when it does not — a request for a
/// table that was never produced is the client's error, not a fault.
pub fn locate_output_file(kind: OutputKind, main_table: &str, bundle: &Vec<String>) -> (r: Result<
    String,
    ServiceError,
>)
    requires
        spec_output_file_rel_path(kind, main_table@) is Some,
    ensures
        r matches Ok(p) ==> Some(p@) == spec_output_file_rel_path(kind, main_table@)
            && spec_bundle_contains(bundle@, p@),
        r is Ok <==> spec_bundle_contains(
            bundle@,
            spec_output_file_rel_path(kind, main_table@)->0,
        ),
        r matches Err(e) ==> e matches ServiceError::NotFound { what } && what@
            == spec_output_file_rel_path(kind, main_table@)->0,
{
    let rel = match output_file_rel_path(kind, main_table) {
        Some(p) => p,
        None => {
            proof {
                assert(false);
            }
            "".to_owned()
        },
    };
    let mut i: usize = 0;
    while i < bundle.len()
        invariant
            i <= bundle@.len(),
            spec_output_file_rel_path(kind, main_table@) is Some,
            rel@ == spec_output_file_rel_path(kind, main_table@)->0,
            forall|j: int| 0 <= j < i ==> bundle@[j]@ != rel@,
        decreases bundle@.len() - i,
    {
        if text::str_eq(bundle[i].as_str(), rel.as_str()) {
            return Ok(rel);
        }
        i = i + 1;
    }
    Err(ServiceError::NotFound { what: rel })
}

} // verus!
