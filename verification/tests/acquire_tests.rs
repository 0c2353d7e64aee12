use flatterer_web::acquire::{
    artifact_file_name, check_url, classify_part, has_input_part, staging_outcome, PartKind,
};
use flatterer_web::error::ServiceError;

#[test]
fn parts_dispatch_by_field_name() {
    assert_eq!(classify_part("file"), Some(PartKind::Input));
    assert_eq!(classify_part("fields"), Some(PartKind::Fields));
    assert_eq!(classify_part("tables"), Some(PartKind::Tables));
    assert_eq!(classify_part("attachment"), None);
    assert_eq!(classify_part(""), None);
    assert_eq!(classify_part("File"), None);
}

#[test]
fn artifact_files_are_fixed() {
    assert_eq!(artifact_file_name(PartKind::Input), "download.json");
    assert_eq!(artifact_file_name(PartKind::Fields), "fields.csv");
    assert_eq!(artifact_file_name(PartKind::Tables), "tables.csv");
}

#[test]
fn urls_must_start_with_http() {
    assert!(check_url("http://example.com/data.json").is_ok());
    assert!(check_url("https://example.com/data.json").is_ok());
    for bad in ["", "ftp://example.com", "/tmp/data.json", "htt"] {
        match check_url(bad) {
            Err(ServiceError::BadInput { message }) => {
                assert_eq!(message, "`url` is empty or does not start with `http`");
            }
            _ => panic!("expected a bad-input rejection for {:?}", bad),
        }
    }
}

#[test]
fn input_part_detection() {
    assert!(!has_input_part(&vec![]));
    assert!(!has_input_part(&vec![PartKind::Fields, PartKind::Tables]));
    assert!(has_input_part(&vec![PartKind::Fields, PartKind::Input]));
}

#[test]
fn staging_nothing_names_all_three_alternatives() {
    let r = staging_outcome(&vec![], &None);
    match r {
        Err(ServiceError::BadInput { message }) => {
            assert_eq!(
                message,
                "need to supply either an id or filename or supply data in request body"
            );
            // the message names an id, an uploaded file and request-body data
            assert!(message.contains("id"));
            assert!(message.contains("filename"));
            assert!(message.contains("request body"));
        }
        _ => panic!("expected a bad-input rejection"),
    }
}

#[test]
fn staging_metadata_alone_is_not_enough() {
    let r = staging_outcome(&vec![PartKind::Fields, PartKind::Tables], &None);
    assert!(matches!(r, Err(ServiceError::BadInput { .. })));
}

#[test]
fn staging_with_input_succeeds() {
    assert!(staging_outcome(&vec![PartKind::Input], &None).is_ok());
    assert!(staging_outcome(&vec![PartKind::Fields, PartKind::Input], &None).is_ok());
}

#[test]
fn ingest_error_takes_precedence() {
    let r = staging_outcome(
        &vec![PartKind::Input],
        &Some("file download failed due to bad request status code".to_string()),
    );
    match r {
        Err(ServiceError::BadInput { message }) => {
            assert_eq!(message, "file download failed due to bad request status code");
        }
        _ => panic!("expected the ingestion failure to be reported"),
    }
}
