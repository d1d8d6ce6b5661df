//! The redirect listener as a state machine. The caller owns the socket: it
//! accepts, reads one line, performs the exchange and writes the response,
//! and reports each of these as an event. What to do next is decided here.

use vstd::prelude::*;
use crate::callback::{decoded_code, extract_code, has_code, is_code_span, percent_decoded};
use crate::error::GmailError;
use crate::gmail::{authorization_url_text, create_gmail_client, redirect_text, url_safe_text};
use crate::state::{GmailState, StateView};
use crate::token::TokenData;

verus! {

/// Where the listener stands.
#[derive(Clone, Copy, Debug, PartialEq, Eq, Structural)]
pub enum ListenerState {
    /// Bound, and waiting for a connection or for an exchange to end.
    Listening,
    /// A token was obtained and announced: the listener has stopped.
    Completed,
}

/// What happened on the socket or at the token endpoint.
#[derive(Debug)]
pub enum ListenerEvent {
    /// Accepting a connection failed.
    AcceptFailed,
    /// A connection was accepted but no line could be read from it.
    LineUnreadable,
    /// The first line of a connection's request.
    RequestLine(Vec<u8>),
    /// The exchange that was asked for has ended with this outcome.
    Exchanged(Result<TokenData, GmailError>),
}

/// What the caller does next.
#[derive(Debug, PartialEq, Eq)]
pub enum ListenerAction {
    /// Drop the connection, if there is one, and accept the next.
    Accept,
    /// Exchange this code with this verifier, and report the outcome.
    Exchange { code: Vec<u8>, pkce_verifier: String },
    /// Emit `event` to the application, write `response` to the connection,
    /// and stop listening.
    Succeed { event: String, response: String },
    /// Write `response` to the connection and accept the next.
    Reject { response: String },
    /// Nothing: the listener has stopped.
    Stop,
}

/// The listener for one authorization attempt.
#[derive(Debug)]
pub struct RedirectListener {
    pub state: ListenerState,
    pub client_id: String,
    pub client_secret: String,
    pub pkce_verifier: String,
}

/// The address that the listener binds.
pub open spec fn bind_address_text() -> Seq<char> {
    "127.0.0.1:3001"@
}

/// The words put before the reason why the port could not be bound.
pub open spec fn bind_failure_prefix() -> Seq<char> {
    "Failed to bind to port 3001: "@
}

/// The name of the event that announces a successful exchange.
pub open spec fn success_event_text() -> Seq<char> {
    "oauth_success"@
}

/// The response to the browser after a successful exchange.
pub open spec fn success_response_text() -> Seq<char> {
    "HTTP/1.1 200 OK\r\nContent-Type: text/html\r\n\r\n<html><body><h1>Authentication Successful!</h1><p>You can close this window and return to the Student Invoice app.</p></body></html>"@
}

/// The response to the browser after a failed exchange.
pub open spec fn failure_response_text() -> Seq<char> {
    "HTTP/1.1 500 Internal Server Error\r\nContent-Type: text/html\r\n\r\n<html><body><h1>Authentication Failed</h1><p>Please try again in the Student Invoice app.</p></body></html>"@
}

/// The address that the listener binds.
pub fn bind_address() -> (r: String)
    ensures
        r@ == bind_address_text(),
{
    "127.0.0.1:3001".to_owned()
}

impl RedirectListener {
    /// The listener's fields that no event changes.
    pub open spec fn same_attempt(self, other: RedirectListener) -> bool {
        &&& self.client_id@ == other.client_id@
        &&& self.client_secret@ == other.client_secret@
        &&& self.pkce_verifier@ == other.pkce_verifier@
    }

    /// Starts an authorization attempt once the port was tried. A port that
    /// could not be bound ends the attempt with a `Bind` failure that names
    /// the reason. Otherwise the attempt starts: the authorization URL is
    /// built for the client and the listener's callback address, and the
    /// listener that comes back with it is listening and keeps the
    /// credentials and the verifier whose challenge the URL carries.
    pub fn start(bound: Result<(), String>, client_id: String, client_secret: String) -> (r: Result<
        (RedirectListener, String),
        GmailError,
    >)
        ensures
            match bound {
                Err(reason) => r matches Err(GmailError::Bind(m)) && m@ == bind_failure_prefix()
                    + reason@,
                Ok(_) => {
                    &&& r matches Ok((listener, url))
                    &&& listener.state == ListenerState::Listening
                    &&& listener.client_id@ == client_id@
                    &&& listener.client_secret@ == client_secret@
                    &&& listener.pkce_verifier@.len() == 43
                    &&& url_safe_text(listener.pkce_verifier@)
                    &&& exists|state: Seq<char>|
                        state.len() == 22 && url@ == #[trigger] authorization_url_text(
                            client_id@,
                            redirect_text(),
                            listener.pkce_verifier@,
                            state,
                        )
                },
            },
    {
        match bound {
            Err(reason) => Err(
                GmailError::Bind("Failed to bind to port 3001: ".to_owned().concat(reason.as_str())),
            ),
            Ok(_) => {
                let client = create_gmail_client(client_id.clone(), client_secret.clone());
                match client.get_auth_url() {
                    Ok((url, pkce_verifier)) => Ok(
                        (
                            RedirectListener {
                                state: ListenerState::Listening,
                                client_id,
                                client_secret,
                                pkce_verifier,
                            },
                            url,
                        ),
                    ),
                    Err(e) => {
                        let reason = e.message();
                        Err(
                            GmailError::Config(
                                "Failed to generate auth URL: ".to_owned().concat(reason.as_str()),
                            ),
                        )
                    },
                }
            },
        }
    }

    /// Takes in one event and says what to do next.
    ///
    /// A listener that has completed stops, whatever is reported. While it
    /// listens: a failed accept or an unreadable line means accepting again;
    /// so does a request line that is no callback with a code, to which
    /// nothing is answered. A callback's code is handed out for the exchange
    /// with the verifier kept. A successful exchange overwrites the store
    /// with the credentials and the token, announces itself and completes
    /// the listener; a failed one is answered and leaves the listener
    /// listening and the store as it was.
    pub fn handle(&mut self, store: &mut GmailState, event: ListenerEvent) -> (r: ListenerAction)
        ensures
            final(self).same_attempt(*old(self)),
            old(self).state == ListenerState::Completed ==> {
                &&& r == ListenerAction::Stop
                &&& final(self).state == ListenerState::Completed
                &&& final(store)@ == old(store)@
            },
            old(self).state == ListenerState::Listening ==> match event {
                ListenerEvent::AcceptFailed | ListenerEvent::LineUnreadable => {
                    &&& r == ListenerAction::Accept
                    &&& final(self).state == ListenerState::Listening
                    &&& final(store)@ == old(store)@
                },
                ListenerEvent::RequestLine(line) => {
                    &&& final(self).state == ListenerState::Listening
                    &&& final(store)@ == old(store)@
                    &&& if has_code(line@) {
                        r matches ListenerAction::Exchange { code, pkce_verifier }
                            && pkce_verifier@ == old(self).pkce_verifier@ && exists|
                            start: int,
                            end: int,
                        |
                            #![trigger is_code_span(line@, start, end)]
                            is_code_span(line@, start, end) && code@ == decoded_code(
                                line@.subrange(start, end),
                                percent_decoded(line@.subrange(start, end)),
                            )
                    } else {
                        r == ListenerAction::Accept
                    }
                },
                ListenerEvent::Exchanged(Ok(token)) => {
                    &&& (r matches ListenerAction::Succeed { event, response } && event@
                        == success_event_text() && response@ == success_response_text())
                    &&& final(self).state == ListenerState::Completed
                    &&& final(store)@ == (StateView {
                        token: Some(token@),
                        client_id: Some(old(self).client_id@),
                        client_secret: Some(old(self).client_secret@),
                    })
                },
                ListenerEvent::Exchanged(Err(_)) => {
                    &&& (r matches ListenerAction::Reject { response } && response@
                        == failure_response_text())
                    &&& final(self).state == ListenerState::Listening
                    &&& final(store)@ == old(store)@
                },
            },
    {
        match self.state {
            ListenerState::Completed => ListenerAction::Stop,
            ListenerState::Listening => match event {
                ListenerEvent::AcceptFailed => ListenerAction::Accept,
                ListenerEvent::LineUnreadable => ListenerAction::Accept,
                ListenerEvent::RequestLine(line) => match extract_code(line.as_slice()) {
                    Some(code) => ListenerAction::Exchange {
                        code,
                        pkce_verifier: self.pkce_verifier.clone(),
                    },
                    None => ListenerAction::Accept,
                },
                ListenerEvent::Exchanged(Ok(token)) => {
                    store.set(self.client_id.clone(), self.client_secret.clone(), token);
                    self.state = ListenerState::Completed;
                    ListenerAction::Succeed {
                        event: "oauth_success".to_owned(),
                        response: "HTTP/1.1 200 OK\r\nContent-Type: text/html\r\n\r\n<html><body><h1>Authentication Successful!</h1><p>You can close this window and return to the Student Invoice app.</p></body></html>".to_owned(),
                    }
                },
                ListenerEvent::Exchanged(Err(_)) => ListenerAction::Reject {
                    response: "HTTP/1.1 500 Internal Server Error\r\nContent-Type: text/html\r\n\r\n<html><body><h1>Authentication Failed</h1><p>Please try again in the Student Invoice app.</p></body></html>".to_owned(),
                },
            },
        }
    }
}

} // verus!
