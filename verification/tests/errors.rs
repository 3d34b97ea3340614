use notification_server::error::ServerError;

fn jwt_error() -> jsonwebtoken::errors::Error {
    jsonwebtoken::errors::Error::from(jsonwebtoken::errors::ErrorKind::InvalidToken)
}

#[test]
fn malformed_request_is_answered_with_400() {
    assert_eq!(ServerError::InvalidRequestFormat.status_code(), 400);
}

#[test]
fn other_errors_are_answered_with_500() {
    let errors = vec![
        ServerError::FailedToStart("no such file".to_string()),
        ServerError::InvalidRequest("timeout".to_string()),
        ServerError::InvalidEnvironmentVariable("missing value".to_string()),
        ServerError::InvalidDatabaseMigration("bad migration".to_string()),
        ServerError::InvalidDatabase("connection refused".to_string()),
        ServerError::InvalidKeySet,
        ServerError::InvalidKey(jwt_error()),
        ServerError::InvalidEncode(jwt_error()),
        ServerError::InvalidDecode(jwt_error()),
    ];
    for e in errors {
        assert_eq!(e.status_code(), 500);
    }
}

#[test]
fn error_messages() {
    assert_eq!(ServerError::FailedToStart("no such file".to_string()).message(), "failed to start");
    assert_eq!(ServerError::InvalidRequest("timeout".to_string()).message(), "Invalid Request: timeout");
    assert_eq!(
        ServerError::InvalidEnvironmentVariable("missing value".to_string()).message(),
        "InvalidEnvironmentVariable: missing value"
    );
    assert_eq!(ServerError::InvalidRequestFormat.message(), "InvalidRequest");
    assert_eq!(
        ServerError::InvalidDatabaseMigration("bad".to_string()).message(),
        "Database migration failed: bad"
    );
    assert_eq!(ServerError::InvalidDatabase("down".to_string()).message(), "failed in database: down");
    assert_eq!(ServerError::InvalidKeySet.message(), "invalid key set");
    assert_eq!(ServerError::InvalidEncode(jwt_error()).message(), "failed to encode JWT: InvalidToken");
    assert!(ServerError::InvalidKey(jwt_error()).message().starts_with("invalid RSA key: "));
    assert!(ServerError::InvalidDecode(jwt_error()).message().starts_with("failed to decode JWT: "));
}

#[test]
fn form_encoding_error_text_and_status() {
    let e = ServerError::InvalidFormat(serde_urlencoded::ser::Error::Custom("unsupported value".into()));
    assert_eq!(e.message(), "Invalid Format: unsupported value");
    assert_eq!(e.status_code(), 500);
}
