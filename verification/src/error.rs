//! The server's error type, its HTTP status and its text.

use vstd::prelude::*;
use vstd::string::StringExecFns;

verus! {

/// What can go wrong. The failures of I/O done around the library (files,
/// HTTP, environment, database) carry the text of the underlying error; the
/// failures of the library's own calls carry the outside error itself.
#[derive(Debug)]
pub enum ServerError {
    FailedToStart(String),
    InvalidFormat(serde_urlencoded::ser::Error),
    InvalidRequest(String),
    InvalidEnvironmentVariable(String),
    InvalidRequestFormat,
    InvalidDatabaseMigration(String),
    InvalidDatabase(String),
    InvalidKeySet,
    InvalidKey(jsonwebtoken::errors::Error),
    InvalidEncode(jsonwebtoken::errors::Error),
    InvalidDecode(jsonwebtoken::errors::Error),
}

/// The HTTP status an error is answered with: a malformed request is the
/// client's fault (400), everything else the server's (500).
pub open spec fn status_of(e: ServerError) -> u16 {
    match e {
        ServerError::InvalidRequestFormat => 400,
        _ => 500,
    }
}

/// The fixed start of an error's text.
pub open spec fn error_prefix(e: ServerError) -> Seq<char> {
    match e {
        ServerError::FailedToStart(_) => "failed to start"@,
        ServerError::InvalidFormat(_) => "Invalid Format: "@,
        ServerError::InvalidRequest(_) => "Invalid Request: "@,
        ServerError::InvalidEnvironmentVariable(_) => "InvalidEnvironmentVariable: "@,
        ServerError::InvalidRequestFormat => "InvalidRequest"@,
        ServerError::InvalidDatabaseMigration(_) => "Database migration failed: "@,
        ServerError::InvalidDatabase(_) => "failed in database: "@,
        ServerError::InvalidKeySet => "invalid key set"@,
        ServerError::InvalidKey(_) => "invalid RSA key: "@,
        ServerError::InvalidEncode(_) => "failed to encode JWT: "@,
        ServerError::InvalidDecode(_) => "failed to decode JWT: "@,
    }
}

/// What `Display` of a `serde_urlencoded::ser::Error` writes.
pub uninterp spec fn urlencode_error_display(e: serde_urlencoded::ser::Error) -> Seq<char>;

/// What `Display` of a `jsonwebtoken::errors::Error` writes.
pub uninterp spec fn jwt_error_display(e: jsonwebtoken::errors::Error) -> Seq<char>;

/// The text that follows the prefix: the carried text, or the displayed
/// outside error.
pub open spec fn error_detail(e: ServerError) -> Seq<char> {
    match e {
        ServerError::InvalidFormat(inner) => urlencode_error_display(inner),
        ServerError::InvalidKey(inner) => jwt_error_display(inner),
        ServerError::InvalidEncode(inner) => jwt_error_display(inner),
        ServerError::InvalidDecode(inner) => jwt_error_display(inner),
        ServerError::InvalidRequest(m) => m@,
        ServerError::InvalidEnvironmentVariable(m) => m@,
        ServerError::InvalidDatabaseMigration(m) => m@,
        ServerError::InvalidDatabase(m) => m@,
        _ => Seq::empty(),
    }
}

/// Calls `Display` of `serde_urlencoded::ser::Error`; the text is named.
#[verifier::external_body]
fn urlencode_error_text(e: &serde_urlencoded::ser::Error) -> (text: String)
    ensures
        text@ == urlencode_error_display(*e),
{
    e.to_string()
}

/// Calls `Display` of `jsonwebtoken::errors::Error`; the text is named.
#[verifier::external_body]
fn jwt_error_text(e: &jsonwebtoken::errors::Error) -> (text: String)
    ensures
        text@ == jwt_error_display(*e),
{
    e.to_string()
}

impl ServerError {
    /// The HTTP status code of the response that reports this error.
    pub fn status_code(&self) -> (code: u16)
        ensures
            code == status_of(*self),
    {
        match self {
            ServerError::InvalidRequestFormat => 400,
            _ => 500,
        }
    }

    /// The error's text, as its `Display` would print it.
    pub fn message(&self) -> (text: String)
        ensures
            text@ == error_prefix(*self) + error_detail(*self),
    {
        let mut text = match self {
            ServerError::FailedToStart(_) => "failed to start".to_string(),
            ServerError::InvalidFormat(_) => "Invalid Format: ".to_string(),
            ServerError::InvalidRequest(_) => "Invalid Request: ".to_string(),
            ServerError::InvalidEnvironmentVariable(_) => "InvalidEnvironmentVariable: ".to_string(),
            ServerError::InvalidRequestFormat => "InvalidRequest".to_string(),
            ServerError::InvalidDatabaseMigration(_) => "Database migration failed: ".to_string(),
            ServerError::InvalidDatabase(_) => "failed in database: ".to_string(),
            ServerError::InvalidKeySet => "invalid key set".to_string(),
            ServerError::InvalidKey(_) => "invalid RSA key: ".to_string(),
            ServerError::InvalidEncode(_) => "failed to encode JWT: ".to_string(),
            ServerError::InvalidDecode(_) => "failed to decode JWT: ".to_string(),
        };
        match self {
            ServerError::InvalidFormat(e) => text.append(urlencode_error_text(e).as_str()),
            ServerError::InvalidRequest(m) => text.append(m.as_str()),
            ServerError::InvalidEnvironmentVariable(m) => text.append(m.as_str()),
            ServerError::InvalidDatabaseMigration(m) => text.append(m.as_str()),
            ServerError::InvalidDatabase(m) => text.append(m.as_str()),
            ServerError::InvalidKey(e) => text.append(jwt_error_text(e).as_str()),
            ServerError::InvalidEncode(e) => text.append(jwt_error_text(e).as_str()),
            ServerError::InvalidDecode(e) => text.append(jwt_error_text(e).as_str()),
            _ => {},
        }
        text
    }
}

} // verus!
