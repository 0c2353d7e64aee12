//! Shape-sniffing decisions: when the leading bytes of the staged input
//! are inspected at all, and what the classifier's verdict means for the
//! conversion.
//!
//! The classification itself — deciding from a short text sample whether
//! the document is one JSON value or a newline-delimited stream — is the
//! external engine's; its verdict enters here as a value, and every
//! decision taken on it is verified.

use vstd::prelude::*;
use crate::error::ServiceError;
use crate::text;

verus! {

/// The verdict of the external shape classifier on the input's leading
/// bytes.
pub enum ShapeReport {
    /// The sample parsed; `guess` is the classifier's shape name, with
    /// `stream` meaning a newline-delimited sequence of values.
    Classified { guess: String },
    /// The sample could not be read as the start of any JSON document.
    Unreadable { message: String },
}

/// The input's framing is sniffed only when the client left it open: no
/// explicit array-selector path was supplied (absent or empty), and
/// stream mode was not declared.
pub open spec fn spec_needs_sniff(array_key: Option<Seq<char>>, json_lines: bool) -> bool {
    (array_key matches Some(k) ==> k.len() == 0) && !json_lines
}

pub fn needs_sniff(array_key: &Option<String>, json_lines: bool) -> (r: bool)
    ensures
        r == spec_needs_sniff(
            match array_key {
                Some(k) => Some(k@),
                None => None,
            },
            json_lines,
        ),
{
    let key_empty = match array_key {
        Some(k) => k.as_str().is_empty(),
        None => true,
    };
    key_empty && !json_lines
}

/// The label attached to a response when stream framing was inferred
/// rather than declared.
pub open spec fn stream_guess_label_spec() -> Seq<char> {
    "JSON Stream"@
}

/// What one classifier verdict decides: a `stream` verdict switches the
/// conversion into stream mode and labels the response; any other verdict
/// leaves single-document framing in place; an unreadable sample rejects
/// the request with the classifier's own message, so the client sees why
/// their leading bytes made no sense.
pub fn apply_shape_report(report: &ShapeReport) -> (r: Result<(bool, String), ServiceError>)
    ensures
        r matches Ok((stream, label)) ==> (match report {
            ShapeReport::Classified { guess } => {
                &&& stream == (guess@ == "stream"@)
                &&& (stream ==> label@ == stream_guess_label_spec())
                &&& (!stream ==> label@ == Seq::<char>::empty())
            },
            ShapeReport::Unreadable { .. } => false,
        }),
        r matches Err(e) ==> (match report {
            ShapeReport::Classified { .. } => false,
            ShapeReport::Unreadable { message } => e matches ServiceError::BadInput {
                message: m,
            } && m@ == message@,
        }),
        r is Ok <==> report is Classified,
{
    match report {
        ShapeReport::Classified { guess } => {
            if text::str_eq(guess.as_str(), "stream") {
                Ok((true, "JSON Stream".to_owned()))
            } else {
                let empty = String::new();
                Ok((false, empty))
            }
        },
        ShapeReport::Unreadable { message } => {
            Err(ServiceError::BadInput { message: message.clone() })
        },
    }
}

} // verus!
