use flatterer_web::copy::{copy_chunks, poll_step, CopyLimiter, ReadOutcome, StreamStep};
use flatterer_web::error::ServiceError;

#[test]
fn copy_exact_under_cap() {
    let chunks = vec![b"hello".to_vec(), b" world".to_vec()];
    let mut sink: Vec<u8> = Vec::new();
    let r = copy_chunks(&chunks, 100, &mut sink);
    assert_eq!(r.unwrap(), 11);
    assert_eq!(sink, b"hello world".to_vec());
}

#[test]
fn copy_exact_at_cap() {
    let chunks = vec![b"hello".to_vec(), b" world".to_vec()];
    let mut sink: Vec<u8> = Vec::new();
    let r = copy_chunks(&chunks, 11, &mut sink);
    assert_eq!(r.unwrap(), 11);
    assert_eq!(sink, b"hello world".to_vec());
}

#[test]
fn copy_over_cap_fails_without_truncation() {
    let chunks = vec![b"hello".to_vec(), b" world".to_vec()];
    let mut sink: Vec<u8> = Vec::new();
    let r = copy_chunks(&chunks, 10, &mut sink);
    assert!(matches!(r, Err(ServiceError::SizeExceeded)));
    // only the admitted prefix of whole chunks reached the sink
    assert_eq!(sink, b"hello".to_vec());
    assert!(sink.len() <= 10);
}

#[test]
fn copy_empty_stream() {
    let chunks: Vec<Vec<u8>> = Vec::new();
    let mut sink: Vec<u8> = Vec::new();
    let r = copy_chunks(&chunks, 0, &mut sink);
    assert_eq!(r.unwrap(), 0);
    assert!(sink.is_empty());
}

#[test]
fn copy_zero_cap_rejects_bytes() {
    let chunks = vec![vec![1u8]];
    let mut sink: Vec<u8> = Vec::new();
    let r = copy_chunks(&chunks, 0, &mut sink);
    assert!(matches!(r, Err(ServiceError::SizeExceeded)));
    assert!(sink.is_empty());
}

#[test]
fn copy_appends_to_existing_sink() {
    let chunks = vec![b"cd".to_vec()];
    let mut sink: Vec<u8> = b"ab".to_vec();
    let r = copy_chunks(&chunks, 2, &mut sink);
    assert_eq!(r.unwrap(), 2);
    assert_eq!(sink, b"abcd".to_vec());
}

#[test]
fn limiter_boundary() {
    let mut l = CopyLimiter::new(10);
    assert!(l.accept(10));
    assert!(!l.accept(1));
    assert!(l.accept(0));
}

#[test]
fn poll_step_eof() {
    let buf = vec![9u8; 4];
    let step = poll_step(ReadOutcome::Read { n: 0 }, &buf);
    assert!(matches!(step, StreamStep::End));
}

#[test]
fn poll_step_yields_prefix() {
    let buf = vec![1u8, 2, 3, 4];
    let step = poll_step(ReadOutcome::Read { n: 3 }, &buf);
    match step {
        StreamStep::Yield { chunk } => assert_eq!(chunk, vec![1u8, 2, 3]),
        _ => panic!("expected a chunk"),
    }
}

#[test]
fn poll_step_retries_interruption() {
    let buf = vec![0u8; 4];
    let step = poll_step(ReadOutcome::Interrupted, &buf);
    assert!(matches!(step, StreamStep::Retry));
}

#[test]
fn poll_step_aborts_on_failure() {
    let buf = vec![0u8; 4];
    let step = poll_step(
        ReadOutcome::Failed { message: "broken pipe".to_string() },
        &buf,
    );
    match step {
        StreamStep::Abort { message } => assert_eq!(message, "broken pipe"),
        _ => panic!("expected an abort"),
    }
}
