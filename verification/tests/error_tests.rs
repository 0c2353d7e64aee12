use flatterer_web::error::ServiceError;

#[test]
fn client_errors_are_4xx() {
    let bad = ServiceError::BadInput { message: "no input".to_string() };
    assert_eq!(bad.http_status(), 400);
    assert_eq!(ServiceError::SizeExceeded.http_status(), 400);
    let failed = ServiceError::ConversionFailed { message: "not an array".to_string() };
    assert_eq!(failed.http_status(), 400);
    let missing = ServiceError::NotFound { what: "csv/orders.csv".to_string() };
    assert_eq!(missing.http_status(), 404);
}

#[test]
fn only_storage_faults_are_5xx() {
    let fault = ServiceError::Storage { message: "disk full".to_string() };
    assert_eq!(fault.http_status(), 500);
    for e in [
        ServiceError::BadInput { message: String::new() },
        ServiceError::SizeExceeded,
        ServiceError::NotFound { what: String::new() },
        ServiceError::ConversionFailed { message: String::new() },
    ] {
        assert!(e.http_status() < 500);
    }
}
