//! The Gmail client: the authorization URL, the token exchange and refresh,
//! and the draft that is posted.

use vstd::prelude::*;
use crate::error::GmailError;
use crate::json::{
    json_member, json_member_of, json_parsed, json_text, json_u64, json_u64_of, member_text,
    parse_json,
};
use crate::time::{clock_instant, current_time, Timestamp};
use crate::token::{
    check_token, expiry_range_text, issued, lifetime, no_access_token_text, refresh_refused_text,
    refreshed_token, renewed_refresh_token, text_of, token_from_grant, TokenCheck, TokenData,
    TokenGrant, TokenView,
};

verus! {

/// The credentials of the application, and where the provider sends the
/// browser back to.
#[derive(Debug, PartialEq, Eq)]
pub struct GmailConfig {
    pub client_id: String,
    pub client_secret: String,
    pub redirect_uri: String,
}

/// A draft as the drafts endpoint describes it.
#[derive(Debug, PartialEq, Eq)]
pub struct GmailDraft {
    pub id: String,
    pub message: GmailMessage,
}

/// The message inside a draft.
#[derive(Debug, PartialEq, Eq)]
pub struct GmailMessage {
    pub id: String,
    pub thread_id: String,
}

/// Makes the decisions of the Gmail flow for one set of credentials.
#[derive(Debug)]
pub struct GmailClient {
    config: GmailConfig,
}

/// A request to the drafts endpoint, ready to be posted.
#[derive(Debug, PartialEq, Eq)]
pub struct DraftRequest {
    /// The address to post to.
    pub url: String,
    /// The access token to authenticate with, as a bearer token.
    pub bearer_token: String,
    /// The message in base64, the `raw` member of the posted `message`.
    pub raw: String,
}

/// A request to the token endpoint that exchanges an authorization code.
#[derive(Debug, PartialEq, Eq)]
pub struct ExchangeRequest {
    /// The address to post to.
    pub token_url: String,
    pub client_id: String,
    pub client_secret: String,
    /// The redirect address that the code was issued for.
    pub redirect_uri: String,
    /// The authorization code.
    pub code: String,
    /// The PKCE verifier that was kept since the URL was built.
    pub pkce_verifier: String,
}

/// What comes before a draft can be posted.
#[derive(Debug, PartialEq, Eq)]
pub enum DraftStep {
    /// The token is good: post this request.
    Post(DraftRequest),
    /// The token has expired: renew it with this refresh token, then ask again.
    Refresh(String),
}

#[verifier::external_type_specification]
#[verifier::external_body]
pub struct ExAuthUrl(oauth2::AuthUrl);

#[verifier::external_type_specification]
#[verifier::external_body]
pub struct ExTokenUrl(oauth2::TokenUrl);

#[verifier::external_type_specification]
#[verifier::external_body]
pub struct ExRedirectUrl(oauth2::RedirectUrl);

#[verifier::external_type_specification]
#[verifier::external_body]
pub struct ExPkceCodeChallenge(oauth2::PkceCodeChallenge);

#[verifier::external_type_specification]
#[verifier::external_body]
pub struct ExParseError(oauth2::url::ParseError);

/// The text that `oauth2::AuthUrl::new` parsed an endpoint from, which it
/// keeps beside the parsed address.
pub uninterp spec fn auth_url_source(url: oauth2::AuthUrl) -> Seq<char>;

/// The text that `oauth2::RedirectUrl::new` parsed a redirect address from,
/// which it keeps beside the parsed address.
pub uninterp spec fn redirect_url_source(url: oauth2::RedirectUrl) -> Seq<char>;

/// The text of a PKCE challenge, as `oauth2::PkceCodeChallenge::as_str`
/// gives it.
pub uninterp spec fn challenge_text(challenge: oauth2::PkceCodeChallenge) -> Seq<char>;

/// The method of a PKCE challenge, as the text of
/// `oauth2::PkceCodeChallenge::method` gives it.
pub uninterp spec fn challenge_method(challenge: oauth2::PkceCodeChallenge) -> Seq<char>;

/// The S256 challenge that belongs to a verifier: what
/// `oauth2::PkceCodeChallenge::from_code_verifier_sha256` computes, the
/// SHA-256 digest of the verifier in unpadded URL-safe base64.
pub uninterp spec fn pkce_challenge_of(verifier: Seq<char>) -> Seq<char>;

/// The text of the URL that the `url` crate parses from `base`, after
/// `pairs` were appended to its query in form encoding, in their order.
pub uninterp spec fn url_with_query(base: Seq<char>, pairs: Seq<(Seq<char>, Seq<char>)>) -> Seq<
    char,
>;

/// A character of the URL-safe base64 alphabet: a letter, a digit, `-` or `_`.
pub open spec fn url_safe_char(c: char) -> bool {
    let n = c as u32;
    (0x41 <= n <= 0x5a) || (0x61 <= n <= 0x7a) || (0x30 <= n <= 0x39) || n == 0x2d || n == 0x5f
}

/// A text of URL-safe base64 characters only.
pub open spec fn url_safe_text(s: Seq<char>) -> bool {
    forall|i: int| 0 <= i < s.len() ==> url_safe_char(#[trigger] s[i])
}

/// The scope that allows composing mail.
pub open spec fn compose_scope_text() -> Seq<char> {
    "https://www.googleapis.com/auth/gmail.compose"@
}

/// The scope that allows sending mail.
pub open spec fn send_scope_text() -> Seq<char> {
    "https://www.googleapis.com/auth/gmail.send"@
}

/// The scope that allows modifying mail.
pub open spec fn modify_scope_text() -> Seq<char> {
    "https://www.googleapis.com/auth/gmail.modify"@
}

/// Three scopes as one query value: joined by single spaces.
pub open spec fn scope_list(first: Seq<char>, second: Seq<char>, third: Seq<char>) -> Seq<char> {
    first + " "@ + second + " "@ + third
}

/// The query of an authorization request, pair by pair and in order. The
/// client secret and the verifier are no part of it.
pub open spec fn authorization_pairs(
    client_id: Seq<char>,
    state: Seq<char>,
    challenge: Seq<char>,
    method: Seq<char>,
    redirect: Seq<char>,
    scope: Seq<char>,
) -> Seq<(Seq<char>, Seq<char>)> {
    seq![
        ("response_type"@, "code"@),
        ("client_id"@, client_id),
        ("state"@, state),
        ("code_challenge"@, challenge),
        ("code_challenge_method"@, method),
        ("redirect_uri"@, redirect),
        ("scope"@, scope),
    ]
}

/// The authorization URL for a client, a redirect address, a verifier and
/// a state: the authorization endpoint with the request's query, which
/// holds the verifier's S256 challenge and the three mail scopes.
pub open spec fn authorization_url_text(
    client_id: Seq<char>,
    redirect: Seq<char>,
    verifier: Seq<char>,
    state: Seq<char>,
) -> Seq<char> {
    url_with_query(
        auth_endpoint_text(),
        authorization_pairs(
            client_id,
            state,
            pkce_challenge_of(verifier),
            "S256"@,
            redirect,
            scope_list(compose_scope_text(), send_scope_text(), modify_scope_text()),
        ),
    )
}

/// What a code exchange that ended in `outcome` yields at `now`: the
/// exchange's own words where it failed, the record issued at `now` where
/// the grant's lifetime can be counted from `now`, and else the range
/// failure. An `Err` holds the text of an `Auth` failure.
pub open spec fn exchange_result(outcome: Result<TokenGrant, String>, now: Timestamp) -> Result<
    TokenView,
    Seq<char>,
> {
    match outcome {
        Err(m) => Err(m@),
        Ok(g) => if now.secs + lifetime(g.expires_in) <= i64::MAX {
            Ok(issued(g.access_token@, text_of(g.refresh_token), g.expires_in, now))
        } else {
            Err(expiry_range_text())
        },
    }
}

/// What the token endpoint's answer to a refresh yields at `now`. Without
/// success the refresh was refused. With success the body must be a JSON
/// document whose `access_token` is a string; the lifetime is its
/// `expires_in` where that is a number, and must be countable from `now`.
/// The record holds the answer's `refresh_token` where that is a string,
/// and keeps the one that was used where it is not. An `Err` holds the text
/// of an `Auth` failure.
pub open spec fn refresh_result(
    refresh_token: Seq<char>,
    success: bool,
    body: Seq<char>,
    now: Timestamp,
) -> Result<TokenView, Seq<char>> {
    if !success {
        Err(refresh_refused_text())
    } else {
        match json_parsed(body) {
            None => Err(malformed_answer_text()),
            Some(doc) => match member_text(doc, "access_token"@) {
                None => Err(no_access_token_text()),
                Some(a) => {
                    let e = json_u64_of(json_member_of(doc, "expires_in"@));
                    let kept = renewed_refresh_token(
                        refresh_token,
                        member_text(doc, "refresh_token"@),
                    );
                    if now.secs + lifetime(e) <= i64::MAX {
                        Ok(issued(a, Some(kept), e, now))
                    } else {
                        Err(expiry_range_text())
                    }
                },
            },
        }
    }
}

/// A result is the record, or the `Auth` failure with the text, that
/// `expected` names.
pub open spec fn token_result_is(
    r: Result<TokenData, GmailError>,
    expected: Result<TokenView, Seq<char>>,
) -> bool {
    match expected {
        Ok(v) => r matches Ok(t) && t@ == v,
        Err(m) => r matches Err(GmailError::Auth(w)) && w@ == m,
    }
}

/// The three members that make a draft, read from an answer's body: the
/// document's `id`, and the `id` and `threadId` of its `message`. There are
/// none where the body is no JSON document or one of them is no string.
pub open spec fn draft_members(body: Seq<char>) -> Option<(Seq<char>, Seq<char>, Seq<char>)> {
    match json_parsed(body) {
        None => None,
        Some(doc) => {
            let message = json_member_of(doc, "message"@);
            match (
                member_text(doc, "id"@),
                member_text(message, "id"@),
                member_text(message, "threadId"@),
            ) {
                (Some(id), Some(message_id), Some(thread_id)) => Some(
                    (id, message_id, thread_id),
                ),
                _ => None,
            }
        },
    }
}

/// What `base64::engine::general_purpose::STANDARD` encodes the UTF-8 bytes
/// of `text` to.
pub uninterp spec fn base64_standard(text: Seq<char>) -> Seq<char>;

/// Where the redirect is sent: the local listener's callback route.
pub open spec fn redirect_text() -> Seq<char> {
    "http://localhost:3001/auth/callback"@
}

/// The provider's authorization endpoint.
pub open spec fn auth_endpoint_text() -> Seq<char> {
    "https://accounts.google.com/o/oauth2/v2/auth"@
}

/// The provider's token endpoint.
pub open spec fn token_endpoint_text() -> Seq<char> {
    "https://oauth2.googleapis.com/token"@
}

/// The drafts endpoint.
pub open spec fn drafts_endpoint_text() -> Seq<char> {
    "https://gmail.googleapis.com/gmail/v1/users/me/drafts"@
}

/// The message of a draft: the subject line, an empty recipient line, an
/// empty line, and the body.
pub open spec fn message_text(subject: Seq<char>, body: Seq<char>) -> Seq<char> {
    "Subject: "@ + subject + "\r\nTo: \r\n\r\n"@ + body
}

/// The form fields of a refresh, in the order they are sent.
pub open spec fn refresh_form(
    refresh_token: Seq<char>,
    client_id: Seq<char>,
    client_secret: Seq<char>,
) -> Seq<(Seq<char>, Seq<char>)> {
    seq![
        ("grant_type"@, "refresh_token"@),
        ("refresh_token"@, refresh_token),
        ("client_id"@, client_id),
        ("client_secret"@, client_secret),
    ]
}

/// The fields of a form as plain values.
pub open spec fn form_view(form: Seq<(String, String)>) -> Seq<(Seq<char>, Seq<char>)> {
    form.map_values(|p: (String, String)| (p.0@, p.1@))
}

/// The text of the failure for an answer that is no JSON document.
pub open spec fn malformed_answer_text() -> Seq<char> {
    "Malformed response from the token endpoint"@
}

/// The text of the failure for a success answer that holds no draft.
pub open spec fn no_draft_text() -> Seq<char> {
    "Malformed draft in the response"@
}

/// Whether `oauth2::AuthUrl::new` takes `text` for an absolute URL.
pub uninterp spec fn auth_url_parses(text: Seq<char>) -> bool;

/// Whether `oauth2::TokenUrl::new` takes `text` for an absolute URL.
pub uninterp spec fn token_url_parses(text: Seq<char>) -> bool;

/// Whether `oauth2::RedirectUrl::new` takes `text` for an absolute URL.
pub uninterp spec fn redirect_url_parses(text: Seq<char>) -> bool;

/// A configuration is well formed where its redirect address is an
/// absolute URL. The two endpoints are fixed and always are.
pub open spec fn well_configured(config: GmailConfig) -> bool {
    redirect_url_parses(config.redirect_uri@)
}

/// Parses an authorization endpoint with `oauth2::AuthUrl::new`, which
/// fails where the text is no absolute URL. Which texts parse is named, not
/// described; the provider's authorization endpoint is one that does. The
/// parsed value keeps the text it was made from.
#[verifier::external_body]
fn parse_auth_url(text: &str) -> (r: Result<oauth2::AuthUrl, oauth2::url::ParseError>)
    ensures
        r is Ok == auth_url_parses(text@),
        text@ == auth_endpoint_text() ==> r is Ok,
        r matches Ok(u) ==> auth_url_source(u) == text@,
{
    oauth2::AuthUrl::new(text.to_owned())
}

/// Parses a token endpoint with `oauth2::TokenUrl::new`, which fails where
/// the text is no absolute URL. Which texts parse is named, not described;
/// the provider's token endpoint is one that does.
#[verifier::external_body]
fn parse_token_url(text: &str) -> (r: Result<oauth2::TokenUrl, oauth2::url::ParseError>)
    ensures
        r is Ok == token_url_parses(text@),
        text@ == token_endpoint_text() ==> r is Ok,
{
    oauth2::TokenUrl::new(text.to_owned())
}

/// Parses a redirect address with `oauth2::RedirectUrl::new`, which fails
/// where the text is no absolute URL. Which texts parse is named, not
/// described; the local listener's callback address is one that does. The
/// parsed value keeps the text it was made from.
#[verifier::external_body]
fn parse_redirect_url(text: &str) -> (r: Result<oauth2::RedirectUrl, oauth2::url::ParseError>)
    ensures
        r is Ok == redirect_url_parses(text@),
        text@ == redirect_text() ==> r is Ok,
        r matches Ok(u) ==> redirect_url_source(u) == text@,
{
    oauth2::RedirectUrl::new(text.to_owned())
}

/// The sentence that `oauth2::url::ParseError` displays for `error`: the
/// error is one of a fixed list of kinds, and each kind has one sentence.
pub uninterp spec fn parse_error_message(error: oauth2::url::ParseError) -> Seq<char>;

/// The sentence that `oauth2::url::ParseError` displays, taken with its
/// `to_string`. The sentence depends on the error alone; it is named, not
/// written out.
#[verifier::external_body]
fn parse_error_text(error: &oauth2::url::ParseError) -> (r: String)
    ensures
        r@ == parse_error_message(*error),
{
    error.to_string()
}

/// Draws a PKCE challenge and its verifier with
/// `oauth2::PkceCodeChallenge::new_random_sha256`. The verifier is 32 random
/// bytes in unpadded URL-safe base64, so it has 43 characters of that
/// alphabet whatever was drawn. The challenge is the S256 challenge of
/// that verifier: a digest of 32 bytes in the same encoding, so 43
/// characters too, with the method `S256`.
#[verifier::external_body]
fn random_pkce() -> (r: (oauth2::PkceCodeChallenge, String))
    ensures
        r.1@.len() == 43,
        url_safe_text(r.1@),
        challenge_text(r.0) == pkce_challenge_of(r.1@),
        challenge_text(r.0).len() == 43,
        challenge_method(r.0) == "S256"@,
{
    let (challenge, verifier) = oauth2::PkceCodeChallenge::new_random_sha256();
    (challenge, verifier.secret().clone())
}

/// Composes the authorization URL with `oauth2::basic::BasicClient` and
/// hands it out with the state that was drawn for it by
/// `oauth2::CsrfToken::new_random`. The URL is the endpoint with these query
/// pairs, in this order: the response type `code`, the client id, the state,
/// the challenge and its method, the redirect address, and the scopes
/// joined by single spaces. The state is 16 random bytes in unpadded
/// URL-safe base64, so it has 22 characters; the URL is stated over it.
#[verifier::external_body]
fn authorization_url(
    config: &GmailConfig,
    auth: oauth2::AuthUrl,
    token: oauth2::TokenUrl,
    redirect: oauth2::RedirectUrl,
    scopes: (&str, &str, &str),
    challenge: oauth2::PkceCodeChallenge,
) -> (r: (String, String))
    ensures
        r.0@ == url_with_query(
            auth_url_source(auth),
            authorization_pairs(
                config.client_id@,
                r.1@,
                challenge_text(challenge),
                challenge_method(challenge),
                redirect_url_source(redirect),
                scope_list(scopes.0@, scopes.1@, scopes.2@),
            ),
        ),
        r.1@.len() == 22,
{
    let id = oauth2::ClientId::new(config.client_id.clone());
    let secret = oauth2::ClientSecret::new(config.client_secret.clone());
    let client = oauth2::basic::BasicClient::new(id, Some(secret), auth, Some(token));
    let client = client.set_redirect_uri(redirect);
    let request = client.authorize_url(oauth2::CsrfToken::new_random);
    let request = request.add_scope(oauth2::Scope::new(scopes.0.to_owned()));
    let request = request.add_scope(oauth2::Scope::new(scopes.1.to_owned()));
    let request = request.add_scope(oauth2::Scope::new(scopes.2.to_owned()));
    let (url, state) = request.set_pkce_challenge(challenge).url();
    (url.to_string(), state.secret().clone())
}

/// Encodes the UTF-8 bytes of a text with the `encode` method of
/// `base64::engine::general_purpose::STANDARD`: the standard alphabet, with
/// padding.
#[verifier::external_body]
fn encode_base64(text: &str) -> (r: String)
    ensures
        r@ == base64_standard(text@),
{
    base64::Engine::encode(&base64::engine::general_purpose::STANDARD, text)
}

/// The provider's authorization endpoint.
pub fn auth_endpoint() -> (r: &'static str)
    ensures
        r@ == auth_endpoint_text(),
{
    "https://accounts.google.com/o/oauth2/v2/auth"
}

/// Where the redirect is sent: the local listener's callback route.
pub fn redirect_uri() -> (r: &'static str)
    ensures
        r@ == redirect_text(),
{
    "http://localhost:3001/auth/callback"
}

/// The provider's token endpoint, to which exchanges and refreshes are posted.
pub fn token_endpoint() -> (r: &'static str)
    ensures
        r@ == token_endpoint_text(),
{
    "https://oauth2.googleapis.com/token"
}

/// The configuration failure that a parse error stands for: it carries the
/// sentence that the error displays.
fn config_error(error: &oauth2::url::ParseError) -> (r: GmailError)
    ensures
        r matches GmailError::Config(m) && m@ == parse_error_message(*error),
{
    GmailError::Config(parse_error_text(error))
}

impl GmailClient {
    pub closed spec fn config(&self) -> GmailConfig {
        self.config
    }

    pub fn new(config: GmailConfig) -> (r: GmailClient)
        ensures
            r.config() == config,
    {
        GmailClient { config }
    }

    /// Builds the provider's authorization URL with a fresh PKCE pair and a
    /// fresh state, for the scopes that compose, send and modify mail. The
    /// URL is the authorization endpoint with the request's query; its
    /// challenge is the S256 challenge of the verifier, which is the second
    /// string: keep it for the exchange. The verifier has 43 characters of
    /// the URL-safe alphabet, its challenge 43 and the state 22. Fails
    /// exactly where the redirect address is no absolute URL, and never for
    /// the listener's own redirect address.
    pub fn get_auth_url(&self) -> (r: Result<(String, String), GmailError>)
        ensures
            self.config().redirect_uri@ == redirect_text() ==> r is Ok,
            r is Ok <==> well_configured(self.config()),
            match r {
                Ok((url, verifier)) => {
                    &&& verifier@.len() == 43
                    &&& url_safe_text(verifier@)
                    &&& pkce_challenge_of(verifier@).len() == 43
                    &&& exists|state: Seq<char>|
                        state.len() == 22 && url@ == #[trigger] authorization_url_text(
                            self.config().client_id@,
                            self.config().redirect_uri@,
                            verifier@,
                            state,
                        )
                },
                Err(e) => e is Config,
            },
    {
        let auth = match parse_auth_url(auth_endpoint()) {
            Ok(u) => u,
            Err(e) => {
                return Err(config_error(&e));
            },
        };
        let token = match parse_token_url(token_endpoint()) {
            Ok(u) => u,
            Err(e) => {
                return Err(config_error(&e));
            },
        };
        let redirect = match parse_redirect_url(self.config.redirect_uri.as_str()) {
            Ok(u) => u,
            Err(e) => {
                return Err(config_error(&e));
            },
        };
        let (challenge, verifier) = random_pkce();
        let scopes = (
            "https://www.googleapis.com/auth/gmail.compose",
            "https://www.googleapis.com/auth/gmail.send",
            "https://www.googleapis.com/auth/gmail.modify",
        );
        let (url, state) = authorization_url(
            &self.config,
            auth,
            token,
            redirect,
            scopes,
            challenge,
        );
        assert(url@ == authorization_url_text(
            self.config().client_id@,
            self.config().redirect_uri@,
            verifier@,
            state@,
        ));
        Ok((url, verifier))
    }

    /// Looks at the configuration as every exchange does before anything
    /// is sent: the two endpoints and the redirect address must be absolute
    /// URLs. Gives the failure of the first that is not, and `None` where
    /// all are.
    fn configuration_fault(&self) -> (r: Option<GmailError>)
        ensures
            r is None <==> well_configured(self.config()),
            self.config().redirect_uri@ == redirect_text() ==> r is None,
            r matches Some(e) ==> e is Config,
    {
        match parse_auth_url(auth_endpoint()) {
            Ok(_) => {},
            Err(e) => {
                return Some(config_error(&e));
            },
        }
        match parse_token_url(token_endpoint()) {
            Ok(_) => {},
            Err(e) => {
                return Some(config_error(&e));
            },
        }
        match parse_redirect_url(self.config.redirect_uri.as_str()) {
            Ok(_) => None,
            Err(e) => Some(config_error(&e)),
        }
    }

    /// What to send to the token endpoint to exchange a code: the endpoint,
    /// the credentials, this client's redirect address, the code and the
    /// verifier that was kept for it. There is a request exactly where the
    /// redirect address is an absolute URL; where it is not, nothing is to
    /// be sent and the failure is a `Config` failure.
    pub fn exchange_request(&self, code: &str, pkce_verifier: &str) -> (r: Result<
        ExchangeRequest,
        GmailError,
    >)
        ensures
            r is Ok <==> well_configured(self.config()),
            self.config().redirect_uri@ == redirect_text() ==> r is Ok,
            match r {
                Ok(q) => {
                    &&& q.token_url@ == token_endpoint_text()
                    &&& q.client_id@ == self.config().client_id@
                    &&& q.client_secret@ == self.config().client_secret@
                    &&& q.redirect_uri@ == self.config().redirect_uri@
                    &&& q.code@ == code@
                    &&& q.pkce_verifier@ == pkce_verifier@
                },
                Err(e) => e is Config,
            },
    {
        match self.configuration_fault() {
            Some(e) => Err(e),
            None => Ok(
                ExchangeRequest {
                    token_url: token_endpoint().to_owned(),
                    client_id: self.config.client_id.clone(),
                    client_secret: self.config.client_secret.clone(),
                    redirect_uri: self.config.redirect_uri.clone(),
                    code: code.to_owned(),
                    pkce_verifier: pkce_verifier.to_owned(),
                },
            ),
        }
    }

    /// Turns the outcome of a code exchange as it stood at `now` into a
    /// record. The configuration is looked at first: a redirect address that
    /// is no absolute URL is a `Config` failure, whatever the outcome. Then a
    /// failed exchange is an `Auth` failure with the exchange's own words. A
    /// grant becomes the record issued at `now`, which expires its lifetime
    /// after `now`; a lifetime too long to be counted from `now` is an
    /// `Auth` failure.
    pub fn token_from_exchange(
        &self,
        outcome: Result<TokenGrant, String>,
        now: Timestamp,
    ) -> (r: Result<TokenData, GmailError>)
        ensures
            (well_configured(self.config()) || self.config().redirect_uri@ == redirect_text())
                ==> token_result_is(r, exchange_result(outcome, now)),
            !well_configured(self.config()) ==> (r matches Err(e) && e is Config),
    {
        match self.configuration_fault() {
            Some(e) => {
                return Err(e);
            },
            None => {},
        }
        match outcome {
            Ok(grant) => {
                let seconds: u64 = match grant.expires_in {
                    Some(s) => s,
                    None => 3600,
                };
                if now.can_add_seconds(seconds) {
                    Ok(token_from_grant(grant, now))
                } else {
                    Err(GmailError::Auth("Token lifetime is out of range".to_owned()))
                }
            },
            Err(m) => Err(GmailError::Auth(m)),
        }
    }

    /// Turns the outcome of a code exchange into a record that is issued at
    /// the time of the call: the result is what `token_from_exchange` gives
    /// at the instant that the clock showed.
    pub fn exchange_code_for_token(&self, outcome: Result<TokenGrant, String>) -> (r: Result<
        TokenData,
        GmailError,
    >)
        ensures
            (well_configured(self.config()) || self.config().redirect_uri@ == redirect_text())
                ==> exists|now: Timestamp|
                clock_instant(now) && token_result_is(r, #[trigger] exchange_result(outcome, now)),
            !well_configured(self.config()) ==> (r matches Err(e) && e is Config),
    {
        let now = current_time();
        self.token_from_exchange(outcome, now)
    }

    /// The form that a refresh posts to the token endpoint.
    pub fn refresh_request(&self, refresh_token: &str) -> (r: Vec<(String, String)>)
        ensures
            form_view(r@) == refresh_form(
                refresh_token@,
                self.config().client_id@,
                self.config().client_secret@,
            ),
    {
        let mut form: Vec<(String, String)> = Vec::new();
        form.push(("grant_type".to_owned(), "refresh_token".to_owned()));
        form.push(("refresh_token".to_owned(), refresh_token.to_owned()));
        form.push(("client_id".to_owned(), self.config.client_id.clone()));
        form.push(("client_secret".to_owned(), self.config.client_secret.clone()));
        assert(form_view(form@) =~= refresh_form(
            refresh_token@,
            self.config().client_id@,
            self.config().client_secret@,
        ));
        form
    }

    /// Reads the token endpoint's answer to a refresh as it stood at `now`.
    /// An answer without success is refused as such. One with success must
    /// be a JSON document with a string `access_token`; its `expires_in`
    /// counts where it is a number, an hour where it is not. The record
    /// holds that access token and expires that lifetime after `now`. Its
    /// refresh token is the answer's `refresh_token` where that is a string,
    /// and the one that was used where the answer issues none.
    pub fn token_from_refresh(
        &self,
        refresh_token: &str,
        success: bool,
        body: &str,
        now: Timestamp,
    ) -> (r: Result<TokenData, GmailError>)
        ensures
            token_result_is(r, refresh_result(refresh_token@, success, body@, now)),
    {
        if !success {
            return Err(GmailError::Auth("Failed to refresh token".to_owned()));
        }
        let doc = match parse_json(body) {
            Some(d) => d,
            None => {
                return Err(
                    GmailError::Auth("Malformed response from the token endpoint".to_owned()),
                );
            },
        };
        let access_token = json_text(&json_member(&doc, "access_token"));
        let new_refresh_token = json_text(&json_member(&doc, "refresh_token"));
        let expires_in = json_u64(&json_member(&doc, "expires_in"));
        let seconds: u64 = match expires_in {
            Some(s) => s,
            None => 3600,
        };
        if access_token.is_some() && !now.can_add_seconds(seconds) {
            return Err(GmailError::Auth("Token lifetime is out of range".to_owned()));
        }
        refreshed_token(refresh_token, new_refresh_token, access_token, expires_in, now)
    }

    /// Reads the token endpoint's answer to a refresh, for a record issued
    /// at the time of the call: the result is what `token_from_refresh`
    /// gives at the instant that the clock showed.
    pub fn refresh_access_token(&self, refresh_token: &str, success: bool, body: &str) -> (r:
        Result<TokenData, GmailError>)
        ensures
            exists|now: Timestamp|
                clock_instant(now) && token_result_is(
                    r,
                    #[trigger] refresh_result(refresh_token@, success, body@, now),
                ),
    {
        let now = current_time();
        self.token_from_refresh(refresh_token, success, body, now)
    }

    /// Decides whether a token can be used at the time of the call: an
    /// unexpired one comes back unchanged, an expired one asks for one
    /// refresh or fails where it has no refresh token.
    pub fn get_valid_token(&self, token: &TokenData) -> (r: Result<TokenCheck, GmailError>)
        ensures
            match r {
                Ok(TokenCheck::Valid(t)) => t@ == token@,
                Ok(TokenCheck::Refresh(t)) => token@.refresh_token == Some(t@),
                Err(e) => e == GmailError::AuthExpired && token@.refresh_token is None,
            },
    {
        let now = current_time();
        check_token(token, now)
    }

    /// The message of a draft: `Subject: `, the subject, a line break, an
    /// empty `To: ` line, an empty line, and the body.
    pub fn create_email_message(&self, subject: &str, body: &str) -> (r: String)
        ensures
            r@ == message_text(subject@, body@),
    {
        let text = "Subject: ".to_owned();
        let text = text.concat(subject);
        let text = text.concat("\r\nTo: \r\n\r\n");
        text.concat(body)
    }

    /// The request that posts a draft with a token that is good: to the
    /// drafts endpoint, with the access token as bearer, and the message in
    /// standard base64.
    pub fn draft_request(&self, token: &TokenData, subject: &str, body: &str) -> (r: DraftRequest)
        ensures
            r.url@ == drafts_endpoint_text(),
            r.bearer_token@ == token@.access_token,
            r.raw@ == base64_standard(message_text(subject@, body@)),
    {
        let message = self.create_email_message(subject, body);
        DraftRequest {
            url: "https://gmail.googleapis.com/gmail/v1/users/me/drafts".to_owned(),
            bearer_token: token.access_token.clone(),
            raw: encode_base64(message.as_str()),
        }
    }

    /// The next step towards a draft as it stands at `now`: the request to
    /// post where the token is good, one refresh where it has expired, and a
    /// failure where it has expired and cannot be renewed.
    pub fn draft_step(&self, token: &TokenData, subject: &str, body: &str, now: Timestamp) -> (r:
        Result<DraftStep, GmailError>)
        ensures
            match crate::token::checked(token@, now) {
                Ok(None) => r matches Ok(DraftStep::Post(q)) && q.url@ == drafts_endpoint_text()
                    && q.bearer_token@ == token@.access_token && q.raw@ == base64_standard(
                    message_text(subject@, body@),
                ),
                Ok(Some(refresh)) => r matches Ok(DraftStep::Refresh(t)) && t@ == refresh,
                Err(_) => r == Err::<DraftStep, GmailError>(GmailError::AuthExpired),
            },
    {
        match check_token(token, now) {
            Ok(TokenCheck::Valid(current)) => Ok(
                DraftStep::Post(self.draft_request(&current, subject, body)),
            ),
            Ok(TokenCheck::Refresh(t)) => Ok(DraftStep::Refresh(t)),
            Err(e) => Err(e),
        }
    }

    /// The next step towards a draft at the time of the call. A request that
    /// comes back carries the token's access token and the encoded message.
    pub fn create_draft(&self, token: &TokenData, subject: String, body: String) -> (r: Result<
        DraftStep,
        GmailError,
    >)
        ensures
            match r {
                Ok(DraftStep::Post(q)) => q.url@ == drafts_endpoint_text() && q.bearer_token@
                    == token@.access_token && q.raw@ == base64_standard(
                    message_text(subject@, body@),
                ),
                Ok(DraftStep::Refresh(t)) => token@.refresh_token == Some(t@),
                Err(e) => e == GmailError::AuthExpired && token@.refresh_token is None,
            },
    {
        let now = current_time();
        self.draft_step(token, subject.as_str(), body.as_str(), now)
    }
}

/// Reads the drafts endpoint's answer. An answer without success is an
/// `Api` failure that carries the answer's text. One with success must
/// be a JSON document with a string `id` and a `message` that has a
/// string `id` and a string `threadId`.
pub fn draft_from_reply(success: bool, body: &str) -> (r: Result<GmailDraft, GmailError>)
    ensures
        !success ==> (r matches Err(GmailError::Api(m)) && m@ == body@),
        success ==> match draft_members(body@) {
            Some((id, message_id, thread_id)) => r matches Ok(d) && d.id@ == id && d.message.id@
                == message_id && d.message.thread_id@ == thread_id,
            None => r matches Err(GmailError::Decode(m)) && m@ == no_draft_text(),
        },
{
    if !success {
        return Err(GmailError::Api(body.to_owned()));
    }
    let parsed = match parse_json(body) {
        Some(doc) => {
            let message = json_member(&doc, "message");
            draft_from_members(
                json_text(&json_member(&doc, "id")),
                json_text(&json_member(&message, "id")),
                json_text(&json_member(&message, "threadId")),
            )
        },
        None => None,
    };
    match parsed {
        Some(draft) => Ok(draft),
        None => Err(GmailError::Decode("Malformed draft in the response".to_owned())),
    }
}

/// The draft that three members make: there is one where all three are there.
pub fn draft_from_members(
    id: Option<String>,
    message_id: Option<String>,
    thread_id: Option<String>,
) -> (r: Option<GmailDraft>)
    ensures
        r is Some <==> (id is Some && message_id is Some && thread_id is Some),
        r matches Some(d) ==> (d.id@ == id.unwrap()@ && d.message.id@ == message_id.unwrap()@
            && d.message.thread_id@ == thread_id.unwrap()@),
{
    match (id, message_id, thread_id) {
        (Some(id), Some(message_id), Some(thread_id)) => Some(
            GmailDraft { id, message: GmailMessage { id: message_id, thread_id } },
        ),
        _ => None,
    }
}

/// The client for a pair of credentials, with the redirect sent to the local
/// listener's callback route.
pub fn create_gmail_client(client_id: String, client_secret: String) -> (r: GmailClient)
    ensures
        r.config().client_id@ == client_id@,
        r.config().client_secret@ == client_secret@,
        r.config().redirect_uri@ == redirect_text(),
{
    let config = GmailConfig {
        client_id,
        client_secret,
        redirect_uri: "http://localhost:3001/auth/callback".to_owned(),
    };
    GmailClient::new(config)
}

} // verus!
