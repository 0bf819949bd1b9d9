use arrow::error::ArrowError;
use spark_connect::error::{ClientError, ClientErrorKind, SparkError, SparkErrorKind};
use spark_connect::io::{accept_block, IoError};

#[test]
fn arrow_error_is_wrapped() {
    let err = IoError::from(ArrowError::IpcError("bad block".to_string()));
    assert!(matches!(err, IoError::Arrow(_)));
    assert!(err.has_source());
    assert_eq!(err.message(), "IoError: ArrowError");
}

#[test]
fn accepted_blocks_add_the_expected_count() {
    let mut total: isize = 0;
    for _ in 0..4 {
        total = accept_block(total, 3, 3).ok().unwrap();
    }
    assert_eq!(total, 12);
}

#[test]
fn negative_expected_count_never_matches() {
    match accept_block(0, 4, -1) {
        Err(IoError::RowCount { expected, got }) => assert_eq!((expected, got), (-1, 4)),
        _ => panic!("expected a row-count error"),
    }
}

#[test]
fn row_count_message() {
    let err = IoError::RowCount { expected: 3, got: 2 };
    assert!(!err.has_source());
    assert_eq!(err.message(), "IoError: Expected 3 rows in arrow batch but got 2.");
    let err = IoError::RowCount { expected: -1, got: 0 };
    assert_eq!(err.message(), "IoError: Expected -1 rows in arrow batch but got 0.");
}

#[test]
fn accept_block_checks_rows() {
    assert_eq!(accept_block(10, 5, 5).ok().unwrap(), 15);
    match accept_block(10, 4, 5) {
        Err(IoError::RowCount { expected, got }) => assert_eq!((expected, got), (5, 4)),
        _ => panic!("expected a row-count error"),
    }
    assert!(accept_block(0, 0, -1).is_err());
}

#[test]
fn error_layers_render() {
    let client = ClientError::from(IoError::RowCount { expected: 1, got: 2 });
    assert_eq!(client.message(), "ClientError: Failed to deserialize Arrow RecordBatch.");
    assert!(client.kind.has_source());
    let spark = SparkError::from(client);
    assert_eq!(spark.message(), "SparkError: Client error");
    let mismatch = ClientError::new(ClientErrorKind::SessionIDMismatch {
        client_session_id: "a".to_string(),
        request_session_id: "b".to_string(),
    });
    assert_eq!(mismatch.message(), "ClientError: Request session ID does not match the client: a != b");
    let uri = SparkError::new(SparkErrorKind::InvalidConnectionUri {
        source: "bad uri".parse::<http::Uri>().unwrap_err(),
        uri: "bad uri".to_string(),
    });
    assert_eq!(uri.message(), "SparkError: Connection URI is invalid: 'bad uri'");
    let stream = ClientErrorKind::Stream(tonic::Status::not_found("gone"));
    assert!(stream.message().starts_with("Failed to process stream: status "));
    assert!(stream.message().contains("gone"));
    let unimpl = ClientErrorKind::Unimplemented("not yet".to_string());
    assert_eq!(unimpl.message(), "not yet");
}

#[test]
fn spark_error_kinds_have_sources() {
    let client = SparkErrorKind::Client(ClientError::new(ClientErrorKind::UnspecifiedInterruptRequest));
    assert!(client.has_source());
}
