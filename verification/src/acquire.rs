//! Input-acquisition decisions: how multipart parts map onto staged
//! artifacts, when a remote URL may be fetched at all, and when a request
//! that staged nothing usable must be rejected.
//!
//! The three ingestion strategies (multipart upload, raw body, remote
//! fetch) do their streaming elsewhere; this module fixes which artifact
//! each byte stream lands in and what outcome the staging phase reports.

use vstd::prelude::*;
use crate::error::ServiceError;
use crate::text;

verus! {

/// The staged artifacts a session workspace can hold.
#[derive(PartialEq, Eq, Structural, Clone, Copy, Debug)]
pub enum PartKind {
    /// The document to convert; staged as `download.json`.
    Input,
    /// A fields-metadata override; staged as `fields.csv`.
    Fields,
    /// A tables-metadata override; staged as `tables.csv`.
    Tables,
}

/// Where a multipart part with field name `name` is dispatched: `file`,
/// `fields` and `tables` land in their artifacts; any other field name
/// ends multipart processing early, and is not an error.
pub open spec fn spec_classify_part(name: Seq<char>) -> Option<PartKind> {
    if name == "file"@ {
        Some(PartKind::Input)
    } else if name == "fields"@ {
        Some(PartKind::Fields)
    } else if name == "tables"@ {
        Some(PartKind::Tables)
    } else {
        None
    }
}

pub fn classify_part(name: &str) -> (r: Option<PartKind>)
    ensures
        r == spec_classify_part(name@),
{
    if text::str_eq(name, "file") {
        Some(PartKind::Input)
    } else if text::str_eq(name, "fields") {
        Some(PartKind::Fields)
    } else if text::str_eq(name, "tables") {
        Some(PartKind::Tables)
    } else {
        None
    }
}

/// The file name each staged artifact is written under inside its
/// session's workspace.
pub open spec fn spec_artifact_file_name(kind: PartKind) -> Seq<char> {
    match kind {
        PartKind::Input => "download.json"@,
        PartKind::Fields => "fields.csv"@,
        PartKind::Tables => "tables.csv"@,
    }
}

pub fn artifact_file_name(kind: PartKind) -> (r: String)
    ensures
        r@ == spec_artifact_file_name(kind),
{
    match kind {
        PartKind::Input => "download.json".to_owned(),
        PartKind::Fields => "fields.csv".to_owned(),
        PartKind::Tables => "tables.csv".to_owned(),
    }
}

/// The message a remote fetch is refused with before any request is made.
pub open spec fn bad_url_message_spec() -> Seq<char> {
    "`url` is empty or does not start with `http`"@
}

/// A remote fetch is attempted only for a URL that begins with `http`;
/// anything else — in particular an empty string or a local file path —
/// is the client's error, and no request is issued for it.
pub fn check_url(url: &str) -> (r: Result<(), ServiceError>)
    ensures
        r is Ok <==> text::spec_starts_with(url@, "http"@),
        r matches Err(e) ==> e matches ServiceError::BadInput { message } && message@
            == bad_url_message_spec(),
{
    if text::str_starts_with(url, "http") {
        Ok(())
    } else {
        Err(
            ServiceError::BadInput {
                message: "`url` is empty or does not start with `http`".to_owned(),
            },
        )
    }
}

/// Whether the staging phase produced the one artifact conversion cannot
/// run without.
pub open spec fn spec_has_input(parts: Seq<PartKind>) -> bool {
    exists|i: int| 0 <= i < parts.len() && parts[i] is Input
}

pub fn has_input_part(parts: &Vec<PartKind>) -> (r: bool)
    ensures
        r == spec_has_input(parts@),
{
    let mut i: usize = 0;
    while i < parts.len()
        invariant
            i <= parts@.len(),
            forall|j: int| 0 <= j < i ==> !(parts@[j] is Input),
        decreases parts@.len() - i,
    {
        if matches!(parts[i], PartKind::Input) {
            return true;
        }
        i = i + 1;
    }
    false
}

/// The message a request that staged no input is rejected with; it names
/// the three acceptable alternatives: an existing identifier, an uploaded
/// file, and data in the request body.
pub open spec fn missing_input_message_spec() -> Seq<char> {
    "need to supply either an id or filename or supply data in request body"@
}

/// The outcome of the staging phase for a newly created session: it went
/// through exactly when no ingestion strategy failed and the input
/// artifact was staged.  An ingestion failure is reported as the client's
/// error with the strategy's own message; staging nothing usable is
/// rejected with [`missing_input_message_spec`].
pub fn staging_outcome(parts: &Vec<PartKind>, ingest_error: &Option<String>) -> (r: Result<
    (),
    ServiceError,
>)
    ensures
        r is Ok <==> ingest_error is None && spec_has_input(parts@),
        r matches Err(e) ==> e matches ServiceError::BadInput { message } && (match ingest_error {
            Some(m) => message@ == m@,
            None => message@ == missing_input_message_spec(),
        }),
{
    match ingest_error {
        Some(m) => Err(ServiceError::BadInput { message: m.clone() }),
        None => {
            if has_input_part(parts) {
                Ok(())
            } else {
                Err(
                    ServiceError::BadInput {
                        message:
                            "need to supply either an id or filename or supply data in request body".to_owned(),
                    },
                )
            }
        },
    }
}

} // verus!
