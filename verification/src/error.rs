//! The ways in which an operation of this library fails.

use vstd::prelude::*;
use vstd::string::StringExecFns;

verus! {

/// Why an operation failed.
#[derive(Debug, Clone, PartialEq, Eq)]
pub enum SupabaseError {
    /// The request for the user did not get through; the transport's words.
    Transport(String),
    /// What came back was not a user profile; the parser's words.
    Response(String),
    /// No bearer token is configured.
    NoToken,
    /// The token has fewer than two dot-separated segments.
    MalformedToken,
    /// The payload segment is not unpadded base64.
    Base64,
    /// The decoded payload is not UTF-8 text.
    Utf8,
    /// The payload text is not a JSON object.
    Json,
    /// A configured header name is no HTTP token.
    InvalidHeaderName,
    /// A configured header value, or the credential, holds a byte that no
    /// header value may hold.
    InvalidHeaderValue,
    /// More headers are configured than a request takes.
    TooManyHeaders,
}

impl SupabaseError {
    /// What `message` returns.
    pub open spec fn message_text(self) -> Seq<char> {
        match self {
            SupabaseError::Transport(m) => m@,
            SupabaseError::Response(m) => m@,
            SupabaseError::NoToken => "No JWT"@,
            SupabaseError::MalformedToken => "Invalid JWT structure"@,
            SupabaseError::Base64 => "Invalid base64 in the JWT payload"@,
            SupabaseError::Utf8 => "Invalid UTF-8 in the JWT payload"@,
            SupabaseError::Json => "Invalid JSON in the JWT payload"@,
            SupabaseError::InvalidHeaderName => "Invalid HTTP header name"@,
            SupabaseError::InvalidHeaderValue => "Invalid HTTP header value"@,
            SupabaseError::TooManyHeaders => "Too many HTTP headers"@,
        }
    }

    /// A sentence that describes the failure.
    pub fn message(&self) -> (r: String)
        ensures
            r@ == self.message_text(),
    {
        match self {
            SupabaseError::Transport(m) => m.clone(),
            SupabaseError::Response(m) => m.clone(),
            SupabaseError::NoToken => String::from_str("No JWT"),
            SupabaseError::MalformedToken => String::from_str("Invalid JWT structure"),
            SupabaseError::Base64 => String::from_str("Invalid base64 in the JWT payload"),
            SupabaseError::Utf8 => String::from_str("Invalid UTF-8 in the JWT payload"),
            SupabaseError::Json => String::from_str("Invalid JSON in the JWT payload"),
            SupabaseError::InvalidHeaderName => String::from_str("Invalid HTTP header name"),
            SupabaseError::InvalidHeaderValue => String::from_str("Invalid HTTP header value"),
            SupabaseError::TooManyHeaders => String::from_str("Too many HTTP headers"),
        }
    }
}

} // verus!
