//! The core of the client: its configuration, its credential cache, and the
//! decisions that keep a valid access token in the cache.
//!
//! Nothing here waits for the network. A caller asks what to do next, does
//! it, and reports what came back; the cache changes only in the functions
//! that take a reply.

use crate::config::QPayConfig;
use crate::error::QPayError;
use crate::http::{
    body_text, check_header_value, header_value_char, invalid_header_message, is_header_value,
    Authorization, HttpMethod, HttpRequest,
};
use crate::models::TokenResponse;
use crate::text::join2;
use crate::token::{reply_record, TokenPlan, TokenState, TokenStateView};
use vstd::prelude::*;
use vstd::string::*;

verus! {

/// The time, in seconds, that the transport gives each exchange.
pub const REQUEST_TIMEOUT_SECONDS: u64 = 30;

/// The path of the endpoint that gives a token for the primary credential.
pub const TOKEN_PATH: &'static str = "/v2/auth/token";

/// The path of the endpoint that gives a token for a refresh token.
pub const REFRESH_PATH: &'static str = "/v2/auth/refresh";

/// The content type of every resource call.
pub const JSON_CONTENT_TYPE: &'static str = "application/json";

/// Replaces the record by the one that `token` describes.
pub fn store_token(state: &mut TokenState, token: &TokenResponse)
    ensures
        final(state)@ == token.credentials(),
{
    state.replace(TokenState::from_response(token));
}

impl QPayConfig {
    /// `req` is the full authentication for this configuration: a POST to the
    /// token endpoint under HTTP Basic with user name and password, without
    /// payload.
    pub open spec fn is_token_request(&self, req: HttpRequest) -> bool {
        &&& req.method == HttpMethod::Post
        &&& req.url@ == self.base_url@ + TOKEN_PATH@
        &&& req.content_type is None
        &&& req.body is None
        &&& req.authorization matches Authorization::Basic { username, password }
        &&& username@ == self.username@
        &&& password@ == self.password@
    }

    /// `req` is the refresh that presents `refresh_token`: a POST to the
    /// refresh endpoint with the token as bearer credential, without payload.
    pub open spec fn is_refresh_request(&self, req: HttpRequest, refresh_token: Seq<char>) -> bool {
        &&& req.method == HttpMethod::Post
        &&& req.url@ == self.base_url@ + REFRESH_PATH@
        &&& req.content_type is None
        &&& req.body is None
        &&& req.authorization matches Authorization::Header { value }
        &&& value@ == "Bearer "@ + refresh_token
    }

    /// `req` is the resource call of `method` on `path` that presents
    /// `access_token` and carries `body`: the URL is the base URL followed by
    /// the path, the content is declared as JSON, the token is the bearer
    /// credential.
    pub open spec fn is_resource_request(
        &self,
        req: HttpRequest,
        method: HttpMethod,
        path: Seq<char>,
        body: Option<Seq<char>>,
        access_token: Seq<char>,
    ) -> bool {
        &&& req.method == method
        &&& req.url@ == self.base_url@ + path
        &&& body_text(req.body) == body
        &&& req.content_type matches Some(content_type)
        &&& content_type@ == JSON_CONTENT_TYPE@
        &&& req.authorization matches Authorization::Header { value }
        &&& value@ == "Bearer "@ + access_token
    }
}

/// Putting `Bearer ` before a token neither makes nor mends a bad header
/// value.
pub proof fn lemma_bearer_header_value(token: Seq<char>)
    ensures
        is_header_value("Bearer "@ + token) <==> is_header_value(token),
{
    reveal_strlit("Bearer ");
    let prefix = "Bearer "@;
    let whole = prefix + token;
    assert(prefix.len() == 7);
    assert(forall|i: int| 0 <= i < 7 ==> header_value_char(#[trigger] prefix[i]));
    if is_header_value(token) {
        assert forall|i: int| 0 <= i < whole.len() implies header_value_char(
            #[trigger] whole[i],
        ) by {
            if i >= 7 {
                assert(whole[i] == token[i - 7]);
            } else {
                assert(whole[i] == prefix[i]);
            }
        }
    }
    if is_header_value(whole) {
        assert forall|i: int| 0 <= i < token.len() implies header_value_char(
            #[trigger] token[i],
        ) by {
            assert(whole[i + 7] == token[i]);
        }
    }
}

/// What is sent once token acquisition has ended with `granted`, where
/// `prepared` is what preparing the resource call gave.
///
/// Acquisition comes first: where it failed, its error is the outcome and
/// nothing is sent, whatever was prepared. Where it succeeded, the outcome is
/// that of the preparation.
pub fn request_after(
    granted: Result<(), QPayError>,
    prepared: Result<HttpRequest, QPayError>,
) -> (r: Result<HttpRequest, QPayError>)
    ensures
        granted matches Err(e) ==> r == Err::<HttpRequest, QPayError>(e),
        granted is Ok ==> r == prepared,
{
    match granted {
        Err(e) => Err(e),
        Ok(_) => prepared,
    }
}

/// What to do next to have a valid access token.
#[derive(Debug)]
pub enum TokenAction {
    /// Nothing: the access token in the cache can be used.
    Ready,
    /// Send this refresh and report the reply to
    /// [`QPayClient::refresh_completed`].
    Refresh(HttpRequest),
    /// Send this full authentication and report the reply to
    /// [`QPayClient::authentication_completed`].
    Authenticate(HttpRequest),
}

impl TokenAction {
    /// The decision that the action carries out.
    pub open spec fn plan(&self) -> TokenPlan {
        match *self {
            TokenAction::Ready => TokenPlan::Ready,
            TokenAction::Refresh(_) => TokenPlan::Refresh,
            TokenAction::Authenticate(_) => TokenPlan::Authenticate,
        }
    }
}

/// The client as a mathematical value.
pub struct QPayClientView {
    pub config: QPayConfig,
    pub token_state: TokenStateView,
}

impl QPayClientView {
    /// `r` is what preparing the resource call of `method` on `path` with
    /// `body` gives: the request that presents the access token of the cache,
    /// or, where that token cannot stand in a header, the configuration error
    /// that says so.
    pub open spec fn prepares(
        self,
        r: Result<HttpRequest, QPayError>,
        method: HttpMethod,
        path: Seq<char>,
        body: Option<Seq<char>>,
    ) -> bool {
        if is_header_value(self.token_state.access_token) {
            r matches Ok(req) && self.config.is_resource_request(
                req,
                method,
                path,
                body,
                self.token_state.access_token,
            )
        } else {
            r matches Err(QPayError::Config(message)) && message@ == invalid_header_message()
        }
    }
}

/// The client's core: its configuration and its credential cache.
///
/// The configuration never changes. The cache changes only when a token
/// response is stored.
#[derive(Debug)]
pub struct QPayClient {
    config: QPayConfig,
    token_state: TokenState,
}

impl View for QPayClient {
    type V = QPayClientView;

    closed spec fn view(&self) -> QPayClientView {
        QPayClientView { config: self.config, token_state: self.token_state@ }
    }
}

impl QPayClient {
    /// A client with the given configuration and no token.
    pub fn new(config: QPayConfig) -> (r: QPayClient)
        ensures
            r@.config == config,
            r@.token_state == TokenStateView::empty(),
    {
        QPayClient { config, token_state: TokenState::default() }
    }

    /// The configuration.
    pub fn config(&self) -> (r: &QPayConfig)
        ensures
            *r == self@.config,
    {
        &self.config
    }

    /// The credential cache.
    pub fn token_state(&self) -> (r: &TokenState)
        ensures
            r@ == self@.token_state,
    {
        &self.token_state
    }

    /// The full authentication: the primary credential, presented to the
    /// token endpoint.
    pub fn get_token_request(&self) -> (req: HttpRequest)
        ensures
            self@.config.is_token_request(req),
    {
        HttpRequest {
            method: HttpMethod::Post,
            url: join2(self.config.base_url.as_str(), TOKEN_PATH),
            content_type: None,
            authorization: Authorization::Basic {
                username: self.config.username.clone(),
                password: self.config.password.clone(),
            },
            body: None,
        }
    }

    /// The refresh that presents `refresh_tok` to the refresh endpoint.
    ///
    /// The token is not examined: one that cannot be sent makes the exchange
    /// fail in the transport.
    pub fn refresh_token_request(&self, refresh_tok: &str) -> (req: HttpRequest)
        ensures
            self@.config.is_refresh_request(req, refresh_tok@),
    {
        HttpRequest {
            method: HttpMethod::Post,
            url: join2(self.config.base_url.as_str(), REFRESH_PATH),
            content_type: None,
            authorization: Authorization::Header { value: join2("Bearer ", refresh_tok) },
            body: None,
        }
    }

    /// The refresh that presents the refresh token of the cache.
    pub fn refresh_request(&self) -> (req: HttpRequest)
        ensures
            self@.config.is_refresh_request(req, self@.token_state.refresh_token),
    {
        self.refresh_token_request(self.token_state.refresh_token())
    }

    /// The resource call of `method` on `path`, with the access token that
    /// the cache holds at this moment. `body` is the payload as JSON text,
    /// `None` for an operation without payload.
    ///
    /// Fails with a configuration error, and only then, where the token holds
    /// a character that cannot stand in a header value.
    pub fn resource_request(&self, method: HttpMethod, path: &str, body: Option<String>) -> (r:
        Result<HttpRequest, QPayError>)
        ensures
            self@.prepares(r, method, path@, body_text(body)),
    {
        let url = join2(self.config.base_url.as_str(), path);
        let value = join2("Bearer ", self.token_state.access_token());
        proof {
            lemma_bearer_header_value(self@.token_state.access_token);
        }
        match check_header_value(value.as_str()) {
            Err(e) => Err(e),
            Ok(()) => Ok(
                HttpRequest {
                            method,
                    url,
                    content_type: Some(String::from_str(JSON_CONTENT_TYPE)),
                    authorization: Authorization::Header { value },
                    body,
                },
            ),
        }
    }

    /// Decides at `now` how to come by a valid access token. The cache is
    /// only read.
    ///
    /// A valid access token needs no exchange. Otherwise a usable refresh
    /// token is presented, and where there is none, the primary credential.
    pub fn ensure_token(&self, now: i64) -> (action: TokenAction)
        ensures
            action.plan() == self@.token_state.plan(now),
            action matches TokenAction::Refresh(req) ==> self@.config.is_refresh_request(
                req,
                self@.token_state.refresh_token,
            ),
            action matches TokenAction::Authenticate(req) ==> self@.config.is_token_request(req),
    {
        if self.token_state.is_valid(now) {
            TokenAction::Ready
        } else if self.token_state.refresh_is_possible(now) {
            TokenAction::Refresh(self.refresh_request())
        } else {
            TokenAction::Authenticate(self.get_token_request())
        }
    }

    /// Takes the reply to the refresh that [`QPayClient::ensure_token`] asked
    /// for.
    ///
    /// A token response is stored, and the token is ready. A failure of any
    /// kind leaves the cache as it is and leads to the full authentication.
    pub fn refresh_completed(&mut self, reply: Result<TokenResponse, QPayError>) -> (action:
        TokenAction)
        ensures
            final(self)@.config == old(self)@.config,
            (final(self)@.token_state, action.plan()) == old(self)@.token_state.after_refresh(
                reply_record(reply),
            ),
            action matches TokenAction::Authenticate(req) ==> old(self)@.config.is_token_request(
                req,
            ),
    {
        match reply {
            Ok(token) => {
                store_token(&mut self.token_state, &token);
                TokenAction::Ready
            },
            Err(_) => TokenAction::Authenticate(self.get_token_request()),
        }
    }

    /// Takes the reply to the full authentication that
    /// [`QPayClient::ensure_token`] or [`QPayClient::refresh_completed`] asked
    /// for.
    ///
    /// A token response is stored. A failure leaves the cache as it is and
    /// ends the attempt with a token error that carries the failure's message.
    pub fn authentication_completed(&mut self, reply: Result<TokenResponse, QPayError>) -> (r:
        Result<(), QPayError>)
        ensures
            final(self)@.config == old(self)@.config,
            (final(self)@.token_state, r is Ok) == old(self)@.token_state.after_authentication(
                reply_record(reply),
            ),
            reply matches Err(e) ==> (r matches Err(QPayError::Token(message)) && (exists|
                source: String,
            |
                e.is_source_text(source) && message@ == e.message_with(source@)) && (
            !e.has_source() ==> message@ == e.message())),
    {
        match reply {
            Ok(token) => {
                store_token(&mut self.token_state, &token);
                Ok(())
            },
            Err(e) => Err(QPayError::Token(e.to_string())),
        }
    }

    /// Stores a token response in the cache.
    pub fn store_token_response(&mut self, token: &TokenResponse)
        ensures
            final(self)@.config == old(self)@.config,
            final(self)@.token_state == token.credentials(),
    {
        store_token(&mut self.token_state, token);
    }
}

/// `std::time::SystemTime`, a reading of the system clock. Nothing is known
/// of what it holds.
#[verifier::external_type_specification]
#[verifier::external_body]
pub struct ExSystemTime(std::time::SystemTime);

/// Calls `std::time::SystemTime::now`. Nothing is claimed of the clock.
#[verifier::external_body]
fn system_time_now() -> std::time::SystemTime {
    std::time::SystemTime::now()
}

/// Calls `SystemTime::duration_since` with the Unix epoch, and gives `None`
/// where it reports that the time lies before the epoch.
#[verifier::external_body]
fn since_unix_epoch(time: &std::time::SystemTime) -> Option<std::time::Duration> {
    time.duration_since(std::time::UNIX_EPOCH).ok()
}

/// Calls `Duration::as_secs`: the whole seconds of a duration.
#[verifier::external_body]
fn whole_seconds(duration: &std::time::Duration) -> u64 {
    duration.as_secs()
}

/// The reading of a clock that is `elapsed` whole seconds past the epoch, as
/// a signed number. A clock before the epoch (`None`) reads 0. A count that
/// does not fit is reduced modulo 2^64 into the signed range.
pub open spec fn clock_reading(elapsed: Option<u64>) -> int {
    match elapsed {
        None => 0,
        Some(seconds) => if seconds <= i64::MAX {
            seconds as int
        } else {
            seconds - 0x1_0000_0000_0000_0000
        },
    }
}

/// Turns the seconds that have passed since the epoch into a clock reading.
pub fn seconds_to_reading(elapsed: Option<u64>) -> (now: i64)
    ensures
        now == clock_reading(elapsed),
{
    match elapsed {
        None => 0,
        Some(seconds) => {
            if seconds <= 0x7fff_ffff_ffff_ffff {
                seconds as i64
            } else {
                let above: u64 = seconds - 0x8000_0000_0000_0000;
                (above as i64) + i64::MIN
            }
        },
    }
}

/// The system clock, in whole seconds since the Unix epoch.
pub fn chrono_now() -> i64 {
    let time = system_time_now();
    let elapsed = match since_unix_epoch(&time) {
        Some(duration) => Some(whole_seconds(&duration)),
        None => None,
    };
    seconds_to_reading(elapsed)
}

} // verus!
