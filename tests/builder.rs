use spark_connect::builder::{ChannelBuilder, ConnectionDefaults};
use spark_connect::error::{ClientError, ClientErrorKind};

fn defaults() -> ConnectionDefaults {
    ConnectionDefaults { user: Some("alice".to_string()), os: "Linux".to_string() }
}

fn expect_conn_error(err: ClientError, connection: &str, text: &str, with_source: bool) {
    match err.kind {
        ClientErrorKind::InvalidConnectionString { msg, conn_string, source } => {
            assert!(msg.contains(text));
            assert_eq!(conn_string, connection);
            assert_eq!(source.is_some(), with_source);
        }
        other => panic!("unexpected error kind: {}", other.message()),
    }
}

#[test]
fn test_channel_builder_default() {
    let expected_url = "http://localhost:15002".to_string();

    let cb = ChannelBuilder::from_remote(None, &defaults()).ok().unwrap();

    assert_eq!(expected_url, cb.endpoint())
}

#[test]
fn test_invalid_scheme_error() {
    let connection = "http://127.0.0.1:15002";
    let err = ChannelBuilder::new(connection, &defaults()).err().unwrap();
    expect_conn_error(err, connection, "must start with 'sc://'", false);
}

#[test]
fn test_missing_host_error() {
    let connection = "sc://:15002";
    let err = ChannelBuilder::new(connection, &defaults()).err().unwrap();
    expect_conn_error(err, connection, "failed to parse", true);
}

#[test]
fn test_missing_port_error() {
    let connection = "sc://127.0.0.1";
    let err = ChannelBuilder::new(connection, &defaults()).err().unwrap();
    expect_conn_error(err, connection, "port must not be empty", false);
}

#[test]
fn test_valid_connection_builds() {
    let connection = "sc://myhost.com:443/;token=ABCDEFG;user_agent=some_agent;user_id=user123";
    let builder = ChannelBuilder::new(connection, &defaults()).ok().unwrap();

    assert_eq!(builder.endpoint(), "http://myhost.com:443");
    assert_eq!(builder.token.unwrap(), "Bearer ABCDEFG");
    assert_eq!(builder.user_id.unwrap(), "user123");
    assert!(builder.user_agent.unwrap().contains("some_agent"));
}

#[test]
fn use_ssl_is_rejected_every_time() {
    let connection = "sc://127.0.0.1:443/;use_ssl=true";
    for _ in 0..2 {
        let err = ChannelBuilder::new(connection, &defaults()).err().unwrap();
        expect_conn_error(err, connection, "requires the 'tls' feature", false);
    }
    let upper = "sc://127.0.0.1:443/;use_ssl=TRUE";
    let err = ChannelBuilder::new(upper, &defaults()).err().unwrap();
    expect_conn_error(err, upper, "requires the 'tls' feature", false);
}

#[test]
fn use_ssl_false_is_accepted() {
    let connection = "sc://127.0.0.1:443/;use_ssl=false";
    let builder = ChannelBuilder::new(connection, &defaults()).ok().unwrap();
    assert!(!builder.use_ssl);
    assert!(builder.headers.is_none());
}

#[test]
fn plain_connection_has_no_headers() {
    for connection in ["sc://example.org:15002", "sc://example.org:15002/"] {
        let builder = ChannelBuilder::new(connection, &defaults()).ok().unwrap();
        assert_eq!(builder.host, "example.org");
        assert_eq!(builder.port, 15002);
        assert!(builder.headers.is_none());
        assert!(!builder.use_ssl);
        assert!(builder.token.is_none());
        assert_eq!(builder.endpoint(), "http://example.org:15002");
    }
}

#[test]
fn defaults_fill_user_and_agent() {
    let builder = ChannelBuilder::new("sc://h:1", &defaults()).ok().unwrap();
    assert_eq!(builder.user_id.unwrap(), "alice");
    assert_eq!(builder.user_agent.unwrap(), "_SPARK_CONNECT_RUST os/linux spark_connect/0.1.0");
    let none = ConnectionDefaults { user: None, os: "linux".to_string() };
    let builder = ChannelBuilder::new("sc://h:1", &none).ok().unwrap();
    assert!(builder.user_id.is_none());
}

#[test]
fn remote_overrides_default_connection() {
    let builder = ChannelBuilder::from_remote(Some("sc://spark.example:7077"), &defaults()).ok().unwrap();
    assert_eq!(builder.endpoint(), "http://spark.example:7077");
}

#[test]
fn other_keys_become_headers() {
    let connection = "sc://h:1/;x-cluster-id=abc;token=T;flag;a=b=c;x-cluster-id=def";
    let builder = ChannelBuilder::new(connection, &defaults()).ok().unwrap();
    let headers = builder.headers.unwrap();
    assert_eq!(headers.len(), 4);
    assert_eq!(headers.get("x-cluster-id").unwrap(), "def");
    assert_eq!(headers.get("authorization").unwrap(), "Bearer T");
    assert_eq!(headers.get("flag").unwrap(), "");
    assert_eq!(headers.get("a").unwrap(), "b=c");
    assert!(headers.get("token").is_none());
}

#[test]
fn session_id_is_parsed() {
    let id = "550e8400-e29b-41d4-a716-446655440000";
    let connection = format!("sc://h:1/;session_id={id}");
    let builder = ChannelBuilder::new(&connection, &defaults()).ok().unwrap();
    assert_eq!(uuid::Uuid::from_u128(builder.session_id).to_string(), id);
    assert!(builder.headers.is_none());
}

#[test]
fn bad_session_id_is_rejected() {
    let connection = "sc://h:1/;session_id=not-a-uuid";
    let err = ChannelBuilder::new(connection, &defaults()).err().unwrap();
    assert!(err.kind.has_source());
    assert_eq!(err.message(), "ClientError: Failed to parse session ID: 'not-a-uuid'");
    match err.kind {
        ClientErrorKind::InvalidSessionID { session_id, .. } => assert_eq!(session_id, "not-a-uuid"),
        other => panic!("unexpected error kind: {}", other.message()),
    }
}

#[test]
fn fresh_session_ids_differ() {
    let a = ChannelBuilder::new("sc://h:1", &defaults()).ok().unwrap();
    let b = ChannelBuilder::new("sc://h:1", &defaults()).ok().unwrap();
    assert_ne!(a.session_id, b.session_id);
}

#[test]
fn connection_error_message() {
    let connection = "http://127.0.0.1:15002";
    let err = ChannelBuilder::new(connection, &defaults()).err().unwrap();
    assert!(!err.kind.has_source());
    assert_eq!(
        err.kind.message(),
        "Failed to parse the connection URL 'http://127.0.0.1:15002': the connection string must start with 'sc://'. Please update the URL to follow the correct format, e.g., 'sc://hostname:port'."
    );
}

#[test]
fn empty_host_is_rejected() {
    let connection = "sc:///x";
    let err = ChannelBuilder::new(connection, &defaults()).err().unwrap();
    expect_conn_error(err, connection, "hostname must not be empty", false);
}
