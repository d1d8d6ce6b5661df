//! The failures that the library reports.

use vstd::prelude::*;

verus! {

/// Why an operation failed. A variant that holds a string holds the text
/// that the user is shown.
#[derive(Debug, PartialEq, Eq)]
pub enum GmailError {
    /// A redirect or endpoint address is no absolute URL, or a credential is missing.
    Config(String),
    /// The listener's port could not be bound.
    Bind(String),
    /// The token endpoint refused an exchange or a refresh, or answered with
    /// something that holds no token.
    Auth(String),
    /// The token has expired and there is no refresh token to renew it with.
    AuthExpired,
    /// The drafts endpoint answered with a failure; the string is its answer.
    Api(String),
    /// The drafts endpoint answered with success, but not with a draft.
    Decode(String),
}

/// The text shown for an expired token that cannot be renewed.
pub open spec fn expired_text() -> Seq<char> {
    "Token expired and no refresh token available"@
}

/// The words put before the drafts endpoint's own answer.
pub open spec fn api_prefix() -> Seq<char> {
    "Gmail API error: "@
}

impl GmailError {
    /// The text that `message` returns.
    pub open spec fn spec_message(self) -> Seq<char> {
        match self {
            GmailError::Config(m) => m@,
            GmailError::Bind(m) => m@,
            GmailError::Auth(m) => m@,
            GmailError::AuthExpired => expired_text(),
            GmailError::Api(body) => api_prefix() + body@,
            GmailError::Decode(m) => m@,
        }
    }

    /// The failure as a sentence for the user.
    pub fn message(&self) -> (r: String)
        ensures
            r@ == self.spec_message(),
    {
        match self {
            GmailError::Config(m) => m.clone(),
            GmailError::Bind(m) => m.clone(),
            GmailError::Auth(m) => m.clone(),
            GmailError::AuthExpired => "Token expired and no refresh token available".to_owned(),
            GmailError::Api(body) => "Gmail API error: ".to_owned().concat(body.as_str()),
            GmailError::Decode(m) => m.clone(),
        }
    }
}

} // verus!
