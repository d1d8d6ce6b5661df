//! The one place where the process keeps its token and the credentials that
//! obtained it.

use vstd::prelude::*;
use crate::error::GmailError;
use crate::time::{current_time, Timestamp};
use crate::token::{check_token, checked, text_of, TokenCheck, TokenData, TokenView};

verus! {

/// Holds at most one token record and at most one pair of credentials.
/// Share it behind one exclusive lock.
#[derive(Debug)]
pub struct GmailState {
    pub token: Option<TokenData>,
    pub client_id: Option<String>,
    pub client_secret: Option<String>,
}

/// The store as plain values.
pub ghost struct StateView {
    pub token: Option<TokenView>,
    pub client_id: Option<Seq<char>>,
    pub client_secret: Option<Seq<char>>,
}

/// What a status report holds. It is advisory: the expiry is reported, not
/// judged.
#[derive(Debug, PartialEq, Eq)]
pub struct AuthStatus {
    pub has_token: bool,
    pub has_client_id: bool,
    pub has_client_secret: bool,
    pub token_expires_at: Option<Timestamp>,
    pub current_time: Timestamp,
}

/// The record of an optional token as plain values.
pub open spec fn record_of(token: Option<TokenData>) -> Option<TokenView> {
    match token {
        Some(t) => Some(t@),
        None => None,
    }
}

/// The text of the failure for a store without a token.
pub open spec fn not_authenticated_text() -> Seq<char> {
    "Not authenticated"@
}

/// The text of the failure for a store without a client id.
pub open spec fn no_client_id_text() -> Seq<char> {
    "Client ID not found"@
}

/// The text of the failure for a store without a client secret.
pub open spec fn no_client_secret_text() -> Seq<char> {
    "Client secret not found"@
}

impl View for GmailState {
    type V = StateView;

    open spec fn view(&self) -> StateView {
        StateView {
            token: record_of(self.token),
            client_id: text_of(self.client_id),
            client_secret: text_of(self.client_secret),
        }
    }
}

impl GmailState {
    /// The report of the store's state at `now`.
    pub open spec fn spec_status(self, now: Timestamp) -> AuthStatus {
        AuthStatus {
            has_token: self.token is Some,
            has_client_id: self.client_id is Some,
            has_client_secret: self.client_secret is Some,
            token_expires_at: match self.token {
                Some(t) => Some(t.expires_at),
                None => None,
            },
            current_time: now,
        }
    }

    /// A store that holds nothing.
    pub fn new() -> (r: GmailState)
        ensures
            r@ == (StateView { token: None, client_id: None, client_secret: None }),
    {
        GmailState { token: None, client_id: None, client_secret: None }
    }

    /// Overwrites the credentials and the token, whatever was held.
    pub fn set(&mut self, client_id: String, client_secret: String, token: TokenData)
        ensures
            final(self)@ == (StateView {
                token: Some(token@),
                client_id: Some(client_id@),
                client_secret: Some(client_secret@),
            }),
    {
        self.token = Some(token);
        self.client_id = Some(client_id);
        self.client_secret = Some(client_secret);
    }

    /// Overwrites the credentials and keeps the token.
    pub fn set_credentials(&mut self, client_id: String, client_secret: String)
        ensures
            final(self)@ == (StateView {
                token: old(self)@.token,
                client_id: Some(client_id@),
                client_secret: Some(client_secret@),
            }),
    {
        self.client_id = Some(client_id);
        self.client_secret = Some(client_secret);
    }

    /// Replaces the token by a renewed one and keeps the credentials.
    pub fn replace_token(&mut self, token: TokenData)
        ensures
            final(self)@ == (StateView { token: Some(token@), ..old(self)@ }),
    {
        self.token = Some(token);
    }

    /// Whether a token is held. Its expiry is not looked at.
    pub fn is_authenticated(&self) -> (r: bool)
        ensures
            r == (self@.token is Some),
    {
        self.token.is_some()
    }

    /// The report of the store's state at `now`.
    pub fn status_at(&self, now: Timestamp) -> (r: AuthStatus)
        ensures
            r == self.spec_status(now),
    {
        AuthStatus {
            has_token: self.token.is_some(),
            has_client_id: self.client_id.is_some(),
            has_client_secret: self.client_secret.is_some(),
            token_expires_at: match &self.token {
                Some(t) => Some(t.expires_at),
                None => None,
            },
            current_time: now,
        }
    }

    /// The report of the store's state at the time of the call.
    pub fn check_auth_status(&self) -> (r: AuthStatus)
        ensures
            r.has_token == (self@.token is Some),
            r.has_client_id == (self@.client_id is Some),
            r.has_client_secret == (self@.client_secret is Some),
            r.token_expires_at == self.spec_status(r.current_time).token_expires_at,
    {
        let now = current_time();
        self.status_at(now)
    }

    /// What a draft needs from the store: a copy of the token, the client id
    /// and the client secret. The first of them that is missing, in this
    /// order, decides the failure.
    pub fn draft_credentials(&self) -> (r: Result<(TokenData, String, String), GmailError>)
        ensures
            match r {
                Ok((token, id, secret)) => self@ == (StateView {
                    token: Some(token@),
                    client_id: Some(id@),
                    client_secret: Some(secret@),
                }),
                Err(GmailError::Auth(m)) => self@.token is None && m@ == not_authenticated_text(),
                Err(GmailError::Config(m)) => self@.token is Some && (if self@.client_id is None {
                    m@ == no_client_id_text()
                } else {
                    self@.client_secret is None && m@ == no_client_secret_text()
                }),
                Err(_) => false,
            },
    {
        let token = match &self.token {
            Some(t) => t.clone(),
            None => {
                return Err(GmailError::Auth("Not authenticated".to_owned()));
            },
        };
        let id = match &self.client_id {
            Some(s) => s.clone(),
            None => {
                return Err(GmailError::Config("Client ID not found".to_owned()));
            },
        };
        let secret = match &self.client_secret {
            Some(s) => s.clone(),
            None => {
                return Err(GmailError::Config("Client secret not found".to_owned()));
            },
        };
        Ok((token, id, secret))
    }

    /// Decides at `now` what to do with the token held: use it unchanged
    /// where it has not expired, refresh it once where it has, fail where it
    /// has expired and has no refresh token, or where none is held.
    pub fn valid_token_at(&self, now: Timestamp) -> (r: Result<TokenCheck, GmailError>)
        ensures
            match self@.token {
                None => r matches Err(GmailError::Auth(m)) && m@ == not_authenticated_text(),
                Some(token) => match checked(token, now) {
                    Ok(None) => r matches Ok(TokenCheck::Valid(t)) && t@ == token,
                    Ok(Some(refresh)) => r matches Ok(TokenCheck::Refresh(t)) && t@ == refresh,
                    Err(_) => r == Err::<TokenCheck, GmailError>(GmailError::AuthExpired),
                },
            },
    {
        match &self.token {
            None => Err(GmailError::Auth("Not authenticated".to_owned())),
            Some(token) => check_token(token, now),
        }
    }

    /// Decides at the time of the call what to do with the token held.
    pub fn get_valid_token(&self) -> (r: Result<TokenCheck, GmailError>)
        ensures
            match r {
                Ok(TokenCheck::Valid(t)) => self@.token == Some(t@),
                Ok(TokenCheck::Refresh(t)) => self@.token matches Some(held)
                    && held.refresh_token == Some(t@),
                Err(GmailError::Auth(m)) => self@.token is None && m@ == not_authenticated_text(),
                Err(e) => e == GmailError::AuthExpired && (self@.token matches Some(held)
                    && held.refresh_token is None),
            },
    {
        let now = current_time();
        self.valid_token_at(now)
    }

    /// Takes in the outcome of a refresh. A renewed token replaces the one
    /// held and a copy of it comes back; a failure leaves the store as it was
    /// and is handed on.
    pub fn finish_refresh(&mut self, outcome: Result<TokenData, GmailError>) -> (r: Result<
        TokenData,
        GmailError,
    >)
        ensures
            match outcome {
                Ok(token) => r matches Ok(t) && t@ == token@ && final(self)@ == (StateView {
                    token: Some(token@),
                    ..old(self)@
                }),
                Err(e) => r == Err::<TokenData, GmailError>(e) && final(self)@ == old(self)@,
            },
    {
        match outcome {
            Ok(token) => {
                let copy = token.clone();
                self.token = Some(token);
                Ok(copy)
            },
            Err(e) => Err(e),
        }
    }
}

} // verus!
