use flatterer_web::error::ServiceError;
use flatterer_web::sniff::{apply_shape_report, needs_sniff, ShapeReport};

#[test]
fn sniffing_only_when_framing_is_open() {
    assert!(needs_sniff(&None, false));
    assert!(needs_sniff(&Some("".to_string()), false));
    assert!(!needs_sniff(&Some("rows".to_string()), false));
    assert!(!needs_sniff(&None, true));
    assert!(!needs_sniff(&Some("".to_string()), true));
}

#[test]
fn stream_verdict_switches_framing() {
    let report = ShapeReport::Classified { guess: "stream".to_string() };
    let (stream, label) = apply_shape_report(&report).unwrap();
    assert!(stream);
    assert_eq!(label, "JSON Stream");
}

#[test]
fn other_verdicts_keep_single_document_framing() {
    for guess in ["", "list_in_object", "array"] {
        let report = ShapeReport::Classified { guess: guess.to_string() };
        let (stream, label) = apply_shape_report(&report).unwrap();
        assert!(!stream);
        assert_eq!(label, "");
    }
}

#[test]
fn unreadable_sample_is_rejected_with_its_message() {
    let report = ShapeReport::Unreadable { message: "lexical error near `<!`".to_string() };
    match apply_shape_report(&report) {
        Err(ServiceError::BadInput { message }) => {
            assert_eq!(message, "lexical error near `<!`");
        }
        _ => panic!("expected a bad-input rejection"),
    }
}
