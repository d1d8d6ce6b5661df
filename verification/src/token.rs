//! Token records: how one is issued from the token endpoint's answer, when
//! it counts as expired, and how a refresh renews it.

use vstd::prelude::*;
use crate::error::GmailError;
use crate::time::Timestamp;

verus! {

/// The lifetime, in seconds, of a token whose issuer named none.
pub const DEFAULT_EXPIRES_IN: u64 = 3600;

/// The token the process works with. `expires_at` is an instant in absolute
/// time, fixed when the token was issued or refreshed.
#[derive(Debug, PartialEq, Eq)]
pub struct TokenData {
    pub access_token: String,
    pub refresh_token: Option<String>,
    pub expires_at: Timestamp,
}

/// A token record as plain values.
pub ghost struct TokenView {
    pub access_token: Seq<char>,
    pub refresh_token: Option<Seq<char>>,
    pub expires_at: Timestamp,
}

/// The text of an optional string.
pub open spec fn text_of(s: Option<String>) -> Option<Seq<char>> {
    match s {
        Some(t) => Some(t@),
        None => None,
    }
}

impl View for TokenData {
    type V = TokenView;

    open spec fn view(&self) -> TokenView {
        TokenView {
            access_token: self.access_token@,
            refresh_token: text_of(self.refresh_token),
            expires_at: self.expires_at,
        }
    }
}

impl Clone for TokenData {
    fn clone(&self) -> (r: Self)
        ensures
            r@ == self@,
    {
        let refresh_token = match &self.refresh_token {
            Some(t) => Some(t.clone()),
            None => None,
        };
        TokenData {
            access_token: self.access_token.clone(),
            refresh_token,
            expires_at: self.expires_at,
        }
    }
}

/// What the token endpoint granted in answer to an authorization code.
#[derive(Debug, PartialEq, Eq)]
pub struct TokenGrant {
    pub access_token: String,
    pub refresh_token: Option<String>,
    pub expires_in: Option<u64>,
}

/// The lifetime that a grant stands for: the one it names, or the default.
pub open spec fn lifetime(expires_in: Option<u64>) -> u64 {
    match expires_in {
        Some(s) => s,
        None => DEFAULT_EXPIRES_IN,
    }
}

/// The record issued at `now` for a grant.
pub open spec fn issued(
    access_token: Seq<char>,
    refresh_token: Option<Seq<char>>,
    expires_in: Option<u64>,
    now: Timestamp,
) -> TokenView {
    TokenView {
        access_token,
        refresh_token,
        expires_at: now.spec_plus_seconds(lifetime(expires_in)),
    }
}

/// A token is expired once `now` lies strictly after `expires_at`.
pub open spec fn expired(token: TokenView, now: Timestamp) -> bool {
    now.later_than(token.expires_at)
}

/// The text of the failure for a refresh that the endpoint refused.
pub open spec fn refresh_refused_text() -> Seq<char> {
    "Failed to refresh token"@
}

/// The text of the failure for an answer that names no access token.
pub open spec fn no_access_token_text() -> Seq<char> {
    "No access token in refresh response"@
}

/// The text of the failure for a lifetime that leads past the last instant.
pub open spec fn expiry_range_text() -> Seq<char> {
    "Token lifetime is out of range"@
}

fn lifetime_of(expires_in: Option<u64>) -> (r: u64)
    ensures
        r == lifetime(expires_in),
{
    match expires_in {
        Some(s) => s,
        None => DEFAULT_EXPIRES_IN,
    }
}

/// Issues the record for a grant received at `now`: the tokens as granted,
/// expiring `expires_in` seconds after `now`, an hour after it where the
/// grant names no lifetime.
pub fn token_from_grant(grant: TokenGrant, now: Timestamp) -> (r: TokenData)
    requires
        now.secs + lifetime(grant.expires_in) <= i64::MAX,
    ensures
        r@ == issued(
            grant.access_token@,
            text_of(grant.refresh_token),
            grant.expires_in,
            now,
        ),
{
    let seconds = lifetime_of(grant.expires_in);
    TokenData {
        access_token: grant.access_token,
        refresh_token: grant.refresh_token,
        expires_at: now.plus_seconds(seconds),
    }
}

/// What to do with a token before it is used.
#[derive(Debug, PartialEq, Eq)]
pub enum TokenCheck {
    /// The token is still good: use this copy of it.
    Valid(TokenData),
    /// The token has expired: renew it with this refresh token.
    Refresh(String),
}

/// The decision that `check_token` makes, over plain values.
pub open spec fn checked(token: TokenView, now: Timestamp) -> Result<Option<Seq<char>>, ()> {
    if !expired(token, now) {
        Ok(None)
    } else {
        match token.refresh_token {
            Some(t) => Ok(Some(t)),
            None => Err(()),
        }
    }
}

/// Decides at `now` whether a token can be used as it is. One that has not
/// expired comes back unchanged. An expired one asks for a single refresh
/// with its refresh token, or fails where it has none.
pub fn check_token(token: &TokenData, now: Timestamp) -> (r: Result<TokenCheck, GmailError>)
    ensures
        match checked(token@, now) {
            Ok(None) => r matches Ok(TokenCheck::Valid(t)) && t@ == token@,
            Ok(Some(refresh)) => r matches Ok(TokenCheck::Refresh(t)) && t@ == refresh,
            Err(_) => r == Err::<TokenCheck, GmailError>(GmailError::AuthExpired),
        },
{
    if now.is_after(&token.expires_at) {
        match &token.refresh_token {
            Some(t) => Ok(TokenCheck::Refresh(t.clone())),
            None => Err(GmailError::AuthExpired),
        }
    } else {
        Ok(TokenCheck::Valid(token.clone()))
    }
}

/// The refresh token of a renewed record: the one that the answer issued,
/// and the one that was used where it issued none.
pub open spec fn renewed_refresh_token(used: Seq<char>, issued_new: Option<Seq<char>>) -> Seq<
    char,
> {
    match issued_new {
        Some(t) => t,
        None => used,
    }
}

/// Builds the record that a refresh at `now` yields from what the answer
/// named. A refresh token that the answer issued replaces the one that was
/// used; where it issued none, the one used is kept. An answer without an
/// access token is a failure.
pub fn refreshed_token(
    refresh_token: &str,
    new_refresh_token: Option<String>,
    access_token: Option<String>,
    expires_in: Option<u64>,
    now: Timestamp,
) -> (r: Result<TokenData, GmailError>)
    requires
        access_token is Some ==> now.secs + lifetime(expires_in) <= i64::MAX,
    ensures
        match access_token {
            Some(a) => r matches Ok(t) && t@ == issued(
                a@,
                Some(renewed_refresh_token(refresh_token@, text_of(new_refresh_token))),
                expires_in,
                now,
            ),
            None => r matches Err(GmailError::Auth(m)) && m@ == no_access_token_text(),
        },
{
    match access_token {
        Some(a) => {
            let seconds = lifetime_of(expires_in);
            Ok(
                TokenData {
                    access_token: a,
                    refresh_token: Some(
                        match new_refresh_token {
                            Some(t) => t,
                            None => refresh_token.to_owned(),
                        },
                    ),
                    expires_at: now.plus_seconds(seconds),
                },
            )
        },
        None => Err(GmailError::Auth("No access token in refresh response".to_owned())),
    }
}

/// A refresh of an expired token yields a record that expires strictly
/// later than the one it replaces.
pub proof fn lemma_refresh_extends_expiry(
    old_token: TokenView,
    access_token: Seq<char>,
    refresh_token: Option<Seq<char>>,
    expires_in: Option<u64>,
    now: Timestamp,
)
    requires
        expired(old_token, now),
        now.secs + lifetime(expires_in) <= i64::MAX,
    ensures
        issued(access_token, refresh_token, expires_in, now).expires_at.later_than(
            old_token.expires_at,
        ),
{
}

/// A record issued at `now` expires exactly its lifetime after `now`, and is
/// not expired at `now`.
pub proof fn lemma_issued_expiry(
    access_token: Seq<char>,
    refresh_token: Option<Seq<char>>,
    expires_in: Option<u64>,
    now: Timestamp,
)
    requires
        now.secs + lifetime(expires_in) <= i64::MAX,
    ensures
        issued(access_token, refresh_token, expires_in, now).expires_at.secs == now.secs
            + lifetime(expires_in),
        issued(access_token, refresh_token, expires_in, now).expires_at.nanos == now.nanos,
        !expired(issued(access_token, refresh_token, expires_in, now), now),
{
}

} // verus!
