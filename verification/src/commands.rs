//! The operations that the application's front end invokes, over the store
//! that it shares with the listener. Failures come back as sentences.

use vstd::prelude::*;
use crate::error::{api_prefix, expired_text};
use crate::gmail::{
    authorization_url_text, base64_standard, create_gmail_client, draft_from_reply,
    draft_members, drafts_endpoint_text, exchange_result, message_text, no_draft_text,
    redirect_text, url_safe_text, DraftStep, GmailDraft,
};
use crate::time::{clock_instant, Timestamp};
use crate::state::{
    no_client_id_text, no_client_secret_text, not_authenticated_text, AuthStatus, GmailState,
    StateView,
};
use crate::token::{TokenGrant, TokenView};

verus! {

/// The words put before the reason why a code was not exchanged.
pub open spec fn exchange_failure_prefix() -> Seq<char> {
    "Failed to exchange code for token: "@
}

/// The words put before the reason why no draft was created.
pub open spec fn draft_failure_prefix() -> Seq<char> {
    "Failed to create draft: "@
}

/// A user-facing answer for a draft: the next step, or the sentence that says
/// why there is none.
#[derive(Debug, PartialEq, Eq)]
pub enum DraftAnswer {
    /// Carry out this step with the credentials held.
    Step(DraftStep),
    /// The draft cannot be created.
    Failed(String),
}

/// Builds the authorization URL for a pair of credentials and keeps the
/// credentials in the store. Comes back with the URL, built for the client
/// and the listener's callback address, and the PKCE verifier whose
/// challenge the URL carries. The fixed addresses are well formed, so this
/// succeeds for every pair of credentials.
pub fn get_gmail_auth_url(state: &mut GmailState, client_id: String, client_secret: String) -> (r:
    Result<(String, String), String>)
    ensures
        r matches Ok((url, verifier)) && verifier@.len() == 43 && url_safe_text(verifier@)
            && exists|drawn: Seq<char>|
            drawn.len() == 22 && url@ == #[trigger] authorization_url_text(
                client_id@,
                redirect_text(),
                verifier@,
                drawn,
            ),
        final(state)@ == (StateView {
            token: old(state)@.token,
            client_id: Some(client_id@),
            client_secret: Some(client_secret@),
        }),
{
    let client = create_gmail_client(client_id.clone(), client_secret.clone());
    match client.get_auth_url() {
        Ok((url, verifier)) => {
            state.set_credentials(client_id, client_secret);
            Ok((url, verifier))
        },
        Err(e) => {
            let reason = e.message();
            Err("Failed to get auth URL: ".to_owned().concat(reason.as_str()))
        },
    }
}

/// What `exchange_gmail_code` leaves in the store and hands back for an
/// outcome, where the exchange yields `expected`: a record is stored with
/// the credentials; a failure leaves the store as it was and comes back as
/// a sentence that ends in the failure's words.
pub open spec fn exchange_stored(
    before: StateView,
    after: StateView,
    r: Result<(), String>,
    client_id: Seq<char>,
    client_secret: Seq<char>,
    expected: Result<TokenView, Seq<char>>,
) -> bool {
    match expected {
        Ok(token) => r is Ok && after == (StateView {
            token: Some(token),
            client_id: Some(client_id),
            client_secret: Some(client_secret),
        }),
        Err(reason) => after == before && (r matches Err(m) && m@ == exchange_failure_prefix()
            + reason),
    }
}

/// Takes in the outcome of a code exchange. A grant becomes the token held,
/// issued at the instant that the clock showed, together with the
/// credentials; a failure leaves the store as it was and comes back as a
/// sentence that ends in the failure's words.
pub fn exchange_gmail_code(
    state: &mut GmailState,
    outcome: Result<TokenGrant, String>,
    client_id: String,
    client_secret: String,
) -> (r: Result<(), String>)
    ensures
        exists|now: Timestamp|
            clock_instant(now) && exchange_stored(
                old(state)@,
                final(state)@,
                r,
                client_id@,
                client_secret@,
                #[trigger] exchange_result(outcome, now),
            ),
{
    let client = create_gmail_client(client_id.clone(), client_secret.clone());
    match client.exchange_code_for_token(outcome) {
        Ok(token) => {
            state.set(client_id, client_secret, token);
            Ok(())
        },
        Err(e) => {
            let reason = e.message();
            Err("Failed to exchange code for token: ".to_owned().concat(reason.as_str()))
        },
    }
}

/// The next step towards a draft with what the store holds. A store that
/// lacks the token, the client id or the client secret gives the sentence
/// that names what is missing; an expired token that cannot be renewed gives
/// the sentence of that failure.
pub fn create_gmail_draft(state: &GmailState, subject: String, body: String) -> (r: DraftAnswer)
    ensures
        state@.token is None ==> (r matches DraftAnswer::Failed(m) && m@
            == not_authenticated_text()),
        state@.token is Some && state@.client_id is None ==> (r matches DraftAnswer::Failed(m)
            && m@ == no_client_id_text()),
        state@.token is Some && state@.client_id is Some && state@.client_secret is None ==> (
        r matches DraftAnswer::Failed(m) && m@ == no_client_secret_text()),
        state@.token is Some && state@.client_id is Some && state@.client_secret is Some
            ==> match r {
            DraftAnswer::Step(DraftStep::Post(q)) => state@.token matches Some(t) && q.url@
                == drafts_endpoint_text() && q.bearer_token@ == t.access_token && q.raw@
                == base64_standard(message_text(subject@, body@)),
            DraftAnswer::Step(DraftStep::Refresh(refresh)) => state@.token matches Some(t)
                && t.refresh_token == Some(refresh@),
            DraftAnswer::Failed(m) => m@ == draft_failure_prefix() + expired_text() && (
            state@.token matches Some(t) && t.refresh_token is None),
        },
{
    let (token, client_id, client_secret) = match state.draft_credentials() {
        Ok(held) => held,
        Err(e) => {
            return DraftAnswer::Failed(e.message());
        },
    };
    let client = create_gmail_client(client_id, client_secret);
    match client.create_draft(&token, subject, body) {
        Ok(step) => DraftAnswer::Step(step),
        Err(e) => {
            let reason = e.message();
            DraftAnswer::Failed("Failed to create draft: ".to_owned().concat(reason.as_str()))
        },
    }
}

/// Reads the drafts endpoint's answer for the front end: the draft, or the
/// sentence that says why there is none.
pub fn finish_gmail_draft(success: bool, body: &str) -> (r: Result<GmailDraft, String>)
    ensures
        !success ==> (r matches Err(m) && m@ == draft_failure_prefix() + api_prefix() + body@),
        success ==> match draft_members(body@) {
            Some((id, message_id, thread_id)) => r matches Ok(d) && d.id@ == id && d.message.id@
                == message_id && d.message.thread_id@ == thread_id,
            None => r matches Err(m) && m@ == draft_failure_prefix() + no_draft_text(),
        },
{
    match draft_from_reply(success, body) {
        Ok(draft) => Ok(draft),
        Err(e) => {
            let reason = e.message();
            Err("Failed to create draft: ".to_owned().concat(reason.as_str()))
        },
    }
}

/// Whether a token is held. Its expiry is not looked at.
pub fn is_gmail_authenticated(state: &GmailState) -> (r: bool)
    ensures
        r == (state@.token is Some),
{
    state.is_authenticated()
}

/// The report of what the store holds, at the time of the call.
pub fn check_gmail_auth_status(state: &GmailState) -> (r: AuthStatus)
    ensures
        r.has_token == (state@.token is Some),
        r.has_client_id == (state@.client_id is Some),
        r.has_client_secret == (state@.client_secret is Some),
        r.token_expires_at == state.spec_status(r.current_time).token_expires_at,
{
    state.check_auth_status()
}

} // verus!
