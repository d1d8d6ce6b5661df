use gmail_drafts::commands::{
    check_gmail_auth_status, create_gmail_draft, exchange_gmail_code, finish_gmail_draft,
    get_gmail_auth_url, is_gmail_authenticated, DraftAnswer,
};
use gmail_drafts::error::GmailError;
use gmail_drafts::gmail::{DraftStep, GmailDraft, GmailMessage};
use gmail_drafts::listener::{
    bind_address, ListenerAction, ListenerEvent, ListenerState, RedirectListener,
};
use gmail_drafts::state::GmailState;
use gmail_drafts::time::Timestamp;
use gmail_drafts::token::{TokenCheck, TokenData, TokenGrant};

const OK_PAGE: &str = "HTTP/1.1 200 OK\r\nContent-Type: text/html\r\n\r\n<html><body><h1>Authentication Successful!</h1><p>You can close this window and return to the Student Invoice app.</p></body></html>";
const FAIL_PAGE: &str = "HTTP/1.1 500 Internal Server Error\r\nContent-Type: text/html\r\n\r\n<html><body><h1>Authentication Failed</h1><p>Please try again in the Student Invoice app.</p></body></html>";

fn token(refresh: Option<&str>, secs: i64) -> TokenData {
    TokenData {
        access_token: "ya29.token".to_string(),
        refresh_token: refresh.map(|s| s.to_string()),
        expires_at: Timestamp::new(secs, 0),
    }
}

fn started() -> RedirectListener {
    RedirectListener::start(Ok(()), "id".to_string(), "secret".to_string()).unwrap().0
}

#[test]
fn listener_binds_the_fixed_port() {
    assert_eq!(bind_address(), "127.0.0.1:3001");
}

#[test]
fn start_gives_listener_and_url() {
    let (listener, url) =
        RedirectListener::start(Ok(()), "id".to_string(), "secret".to_string()).unwrap();
    assert_eq!(listener.state, ListenerState::Listening);
    assert_eq!(listener.client_id, "id");
    assert_eq!(listener.client_secret, "secret");
    assert_eq!(listener.pkce_verifier.len(), 43);
    assert!(url.contains("client_id=id"));
    assert!(url.contains("code_challenge="));
}

#[test]
fn second_start_on_a_taken_port_fails_to_bind() {
    let first = RedirectListener::start(Ok(()), "id".to_string(), "secret".to_string());
    assert!(first.is_ok());
    let second = RedirectListener::start(
        Err("Address already in use (os error 98)".to_string()),
        "id".to_string(),
        "secret".to_string(),
    );
    match second {
        Err(e) => assert_eq!(
            e,
            GmailError::Bind("Failed to bind to port 3001: Address already in use (os error 98)".to_string())
        ),
        Ok(_) => panic!("a taken port must not start a listener"),
    }
}

#[test]
fn listener_end_to_end() {
    let mut store = GmailState::new();
    assert!(!is_gmail_authenticated(&store));
    let (mut listener, url) =
        RedirectListener::start(Ok(()), "id".to_string(), "secret".to_string()).unwrap();
    assert!(url.starts_with("https://accounts.google.com/o/oauth2/v2/auth?"));
    let verifier = listener.pkce_verifier.clone();
    let line = b"GET /auth/callback?code=VALIDCODE&state=s HTTP/1.1\r\n".to_vec();
    let action = listener.handle(&mut store, ListenerEvent::RequestLine(line));
    assert_eq!(
        action,
        ListenerAction::Exchange { code: b"VALIDCODE".to_vec(), pkce_verifier: verifier }
    );
    assert!(!is_gmail_authenticated(&store));
    let issued = token(Some("r"), 5000);
    let action = listener.handle(&mut store, ListenerEvent::Exchanged(Ok(issued)));
    assert_eq!(
        action,
        ListenerAction::Succeed { event: "oauth_success".to_string(), response: OK_PAGE.to_string() }
    );
    assert_eq!(listener.state, ListenerState::Completed);
    assert!(is_gmail_authenticated(&store));
    let status = check_gmail_auth_status(&store);
    assert!(status.has_token);
    assert!(status.has_client_id);
    assert!(status.has_client_secret);
    assert_eq!(status.token_expires_at, Some(Timestamp::new(5000, 0)));
    assert_eq!(store.client_id, Some("id".to_string()));
    assert_eq!(store.client_secret, Some("secret".to_string()));
    assert_eq!(store.token, Some(token(Some("r"), 5000)));
}

#[test]
fn failed_exchange_keeps_listening() {
    let mut store = GmailState::new();
    let mut listener = started();
    let action = listener.handle(
        &mut store,
        ListenerEvent::Exchanged(Err(GmailError::Auth("invalid_grant".to_string()))),
    );
    assert_eq!(action, ListenerAction::Reject { response: FAIL_PAGE.to_string() });
    assert_eq!(listener.state, ListenerState::Listening);
    assert!(!store.is_authenticated());
    let line = b"GET /auth/callback?code=again HTTP/1.1".to_vec();
    let action = listener.handle(&mut store, ListenerEvent::RequestLine(line));
    assert!(matches!(action, ListenerAction::Exchange { .. }));
}

#[test]
fn listener_swallows_what_is_no_callback() {
    let mut store = GmailState::new();
    let mut listener = started();
    assert_eq!(listener.handle(&mut store, ListenerEvent::AcceptFailed), ListenerAction::Accept);
    assert_eq!(listener.handle(&mut store, ListenerEvent::LineUnreadable), ListenerAction::Accept);
    let other = ListenerEvent::RequestLine(b"GET /favicon.ico HTTP/1.1\r\n".to_vec());
    assert_eq!(listener.handle(&mut store, other), ListenerAction::Accept);
    let no_code = ListenerEvent::RequestLine(b"GET /auth/callback?error=denied HTTP/1.1\r\n".to_vec());
    assert_eq!(listener.handle(&mut store, no_code), ListenerAction::Accept);
    assert_eq!(listener.state, ListenerState::Listening);
    assert!(!store.is_authenticated());
}

#[test]
fn completed_listener_stops() {
    let mut store = GmailState::new();
    let mut listener = started();
    listener.handle(&mut store, ListenerEvent::Exchanged(Ok(token(None, 1))));
    let line = ListenerEvent::RequestLine(b"GET /auth/callback?code=late HTTP/1.1".to_vec());
    assert_eq!(listener.handle(&mut store, line), ListenerAction::Stop);
    let late = ListenerEvent::Exchanged(Ok(token(None, 2)));
    assert_eq!(listener.handle(&mut store, late), ListenerAction::Stop);
    assert_eq!(listener.handle(&mut store, ListenerEvent::AcceptFailed), ListenerAction::Stop);
    assert_eq!(listener.state, ListenerState::Completed);
    assert_eq!(store.token, Some(token(None, 1)));
}

#[test]
fn store_set_overwrites() {
    let mut store = GmailState::new();
    assert!(!store.is_authenticated());
    store.set("a".to_string(), "b".to_string(), token(Some("r"), 10));
    store.set("c".to_string(), "d".to_string(), token(None, 20));
    assert!(store.is_authenticated());
    assert_eq!(store.client_id, Some("c".to_string()));
    assert_eq!(store.client_secret, Some("d".to_string()));
    assert_eq!(store.token, Some(token(None, 20)));
    store.set_credentials("e".to_string(), "f".to_string());
    assert_eq!(store.token, Some(token(None, 20)));
    assert_eq!(store.client_id, Some("e".to_string()));
    store.replace_token(token(Some("x"), 30));
    assert_eq!(store.token, Some(token(Some("x"), 30)));
    assert_eq!(store.client_secret, Some("f".to_string()));
}

#[test]
fn store_status_reports_without_judging() {
    let mut store = GmailState::new();
    let at = Timestamp::new(1_000_000, 1);
    let empty = store.status_at(at);
    assert!(!empty.has_token && !empty.has_client_id && !empty.has_client_secret);
    assert_eq!(empty.token_expires_at, None);
    assert_eq!(empty.current_time, at);
    store.set("a".to_string(), "b".to_string(), token(None, 10));
    let full = store.status_at(at);
    assert!(full.has_token && full.has_client_id && full.has_client_secret);
    assert_eq!(full.token_expires_at, Some(Timestamp::new(10, 0)));
    assert!(store.is_authenticated());
    let live = store.check_auth_status();
    assert!(live.has_token);
    assert!(live.current_time.secs > 1_600_000_000);
}

#[test]
fn store_valid_token() {
    let mut store = GmailState::new();
    let at = Timestamp::new(100, 0);
    assert_eq!(store.valid_token_at(at), Err(GmailError::Auth("Not authenticated".to_string())));
    assert_eq!(store.get_valid_token(), Err(GmailError::Auth("Not authenticated".to_string())));
    store.set("a".to_string(), "b".to_string(), token(Some("r"), 100));
    assert_eq!(store.valid_token_at(at), Ok(TokenCheck::Valid(token(Some("r"), 100))));
    assert_eq!(store.valid_token_at(at), Ok(TokenCheck::Valid(token(Some("r"), 100))));
    assert_eq!(store.valid_token_at(Timestamp::new(101, 0)), Ok(TokenCheck::Refresh("r".to_string())));
    assert_eq!(store.get_valid_token(), Ok(TokenCheck::Refresh("r".to_string())));
    store.replace_token(token(None, 100));
    assert_eq!(store.valid_token_at(Timestamp::new(101, 0)), Err(GmailError::AuthExpired));
    assert_eq!(store.get_valid_token(), Err(GmailError::AuthExpired));
}

#[test]
fn store_takes_in_a_refresh() {
    let mut store = GmailState::new();
    store.set("a".to_string(), "b".to_string(), token(Some("r"), 100));
    let failed = store.finish_refresh(Err(GmailError::Auth("Failed to refresh token".to_string())));
    assert_eq!(failed, Err(GmailError::Auth("Failed to refresh token".to_string())));
    assert_eq!(store.token, Some(token(Some("r"), 100)));
    let renewed = store.finish_refresh(Ok(token(Some("r"), 4000)));
    assert_eq!(renewed, Ok(token(Some("r"), 4000)));
    assert_eq!(store.token, Some(token(Some("r"), 4000)));
    assert_eq!(store.client_id, Some("a".to_string()));
}

#[test]
fn draft_credentials_name_what_is_missing() {
    let mut store = GmailState::new();
    assert_eq!(store.draft_credentials(), Err(GmailError::Auth("Not authenticated".to_string())));
    store.token = Some(token(None, 1));
    assert_eq!(store.draft_credentials(), Err(GmailError::Config("Client ID not found".to_string())));
    store.client_id = Some("id".to_string());
    assert_eq!(store.draft_credentials(), Err(GmailError::Config("Client secret not found".to_string())));
    store.client_secret = Some("secret".to_string());
    assert_eq!(store.draft_credentials(), Ok((token(None, 1), "id".to_string(), "secret".to_string())));
}

#[test]
fn command_auth_url_keeps_credentials() {
    let mut store = GmailState::new();
    let (url, verifier) = get_gmail_auth_url(&mut store, "id".to_string(), "secret".to_string()).unwrap();
    assert!(url.contains("client_id=id"));
    assert_eq!(verifier.len(), 43);
    assert_eq!(store.client_id, Some("id".to_string()));
    assert_eq!(store.client_secret, Some("secret".to_string()));
    assert!(!is_gmail_authenticated(&store));
}

#[test]
fn command_exchange_stores_the_token() {
    let mut store = GmailState::new();
    let failed = exchange_gmail_code(&mut store, Err("invalid_grant".to_string()), "id".to_string(), "s".to_string());
    assert_eq!(failed, Err("Failed to exchange code for token: invalid_grant".to_string()));
    assert!(!is_gmail_authenticated(&store));
    assert_eq!(store.client_id, None);
    let grant = TokenGrant { access_token: "a".to_string(), refresh_token: None, expires_in: Some(10) };
    assert_eq!(exchange_gmail_code(&mut store, Ok(grant), "id".to_string(), "s".to_string()), Ok(()));
    assert!(is_gmail_authenticated(&store));
    assert_eq!(store.client_id, Some("id".to_string()));
    assert_eq!(store.token.as_ref().map(|t| t.access_token.clone()), Some("a".to_string()));
}

#[test]
fn command_draft_steps() {
    let mut store = GmailState::new();
    match create_gmail_draft(&store, "s".to_string(), "b".to_string()) {
        DraftAnswer::Failed(m) => assert_eq!(m, "Not authenticated"),
        DraftAnswer::Step(_) => panic!("an empty store has no draft"),
    }
    store.set("id".to_string(), "secret".to_string(), token(None, 0));
    match create_gmail_draft(&store, "s".to_string(), "b".to_string()) {
        DraftAnswer::Failed(m) => {
            assert_eq!(m, "Failed to create draft: Token expired and no refresh token available")
        }
        DraftAnswer::Step(_) => panic!("an expired token has no draft"),
    }
    store.replace_token(token(Some("r"), 0));
    match create_gmail_draft(&store, "s".to_string(), "b".to_string()) {
        DraftAnswer::Step(DraftStep::Refresh(r)) => assert_eq!(r, "r"),
        _ => panic!("an expired token with a refresh token is renewed"),
    }
    store.replace_token(token(None, i64::MAX));
    match create_gmail_draft(&store, "Invoice #1".to_string(), "Hello".to_string()) {
        DraftAnswer::Step(DraftStep::Post(q)) => {
            assert_eq!(q.bearer_token, "ya29.token");
            assert_eq!(q.raw, "U3ViamVjdDogSW52b2ljZSAjMQ0KVG86IA0KDQpIZWxsbw==");
        }
        _ => panic!("a good token posts the draft"),
    }
}

#[test]
fn command_draft_answers() {
    let body = "{\"id\":\"r-1\",\"message\":{\"id\":\"m-1\",\"threadId\":\"t-1\"}}";
    let expected = GmailDraft {
        id: "r-1".to_string(),
        message: GmailMessage { id: "m-1".to_string(), thread_id: "t-1".to_string() },
    };
    assert_eq!(finish_gmail_draft(true, body), Ok(expected));
    assert_eq!(
        finish_gmail_draft(false, "quota"),
        Err("Failed to create draft: Gmail API error: quota".to_string())
    );
    assert_eq!(
        finish_gmail_draft(true, "[]"),
        Err("Failed to create draft: Malformed draft in the response".to_string())
    );
}
