//! The credential cache: the record of the two tokens, the rule that says
//! when each can be used, and what one pass of token acquisition comes to.

use crate::error::QPayError;
use crate::models::TokenResponse;
use vstd::prelude::*;
use vstd::string::*;

verus! {

/// The margin, in seconds, by which a token must outlive the moment it is
/// used at.
pub const TOKEN_BUFFER_SECONDS: i64 = 30;

/// What the cache decides when asked for a token.
#[derive(PartialEq, Eq, Structural)]
pub enum TokenPlan {
    /// The access token can be used as it is.
    Ready,
    /// The access token cannot be used, the refresh token can.
    Refresh,
    /// Neither can be used.
    Authenticate,
}

/// The credential record as a mathematical value.
pub struct TokenStateView {
    pub access_token: Seq<char>,
    pub refresh_token: Seq<char>,
    pub expires_at: i64,
    pub refresh_expires_at: i64,
}

impl TokenStateView {
    /// The record of a client that has not obtained a token yet.
    pub open spec fn empty() -> TokenStateView {
        TokenStateView {
            access_token: Seq::empty(),
            refresh_token: Seq::empty(),
            expires_at: 0,
            refresh_expires_at: 0,
        }
    }

    /// The access token is there and has more than the margin left at `now`.
    pub open spec fn is_valid(self, now: i64) -> bool {
        self.access_token.len() > 0 && now < self.expires_at - TOKEN_BUFFER_SECONDS
    }

    /// The refresh token is there and has more than the margin left at `now`.
    pub open spec fn refresh_is_possible(self, now: i64) -> bool {
        self.refresh_token.len() > 0 && now < self.refresh_expires_at - TOKEN_BUFFER_SECONDS
    }

    /// The decision at `now`.
    pub open spec fn plan(self, now: i64) -> TokenPlan {
        if self.is_valid(now) {
            TokenPlan::Ready
        } else if self.refresh_is_possible(now) {
            TokenPlan::Refresh
        } else {
            TokenPlan::Authenticate
        }
    }
}

impl TokenResponse {
    /// The record that this response leaves in the cache. Both expiry fields
    /// are taken as they come, as instants in seconds since the epoch.
    pub open spec fn credentials(&self) -> TokenStateView {
        TokenStateView {
            access_token: self.access_token@,
            refresh_token: self.refresh_token@,
            expires_at: self.expires_in,
            refresh_expires_at: self.refresh_expires_in,
        }
    }
}

/// The credential record: the two tokens and the instants, in seconds since
/// the epoch, at which they expire. An empty token is no token.
///
/// The record is only ever replaced as a whole.
#[derive(Debug)]
pub struct TokenState {
    access_token: String,
    refresh_token: String,
    expires_at: i64,
    refresh_expires_at: i64,
}

impl View for TokenState {
    type V = TokenStateView;

    closed spec fn view(&self) -> TokenStateView {
        TokenStateView {
            access_token: self.access_token@,
            refresh_token: self.refresh_token@,
            expires_at: self.expires_at,
            refresh_expires_at: self.refresh_expires_at,
        }
    }
}

impl Default for TokenState {
    /// The record without tokens.
    fn default() -> (r: TokenState)
        ensures
            r@ == TokenStateView::empty(),
    {
        let r = TokenState {
            access_token: String::new(),
            refresh_token: String::new(),
            expires_at: 0,
            refresh_expires_at: 0,
        };
        assert(r@.access_token =~= Seq::empty() && r@.refresh_token =~= Seq::empty());
        r
    }
}

/// Whether `now` is more than the margin before `expiry`.
fn before_margin(now: i64, expiry: i64) -> (r: bool)
    ensures
        r == (now < expiry - TOKEN_BUFFER_SECONDS),
{
    if expiry < i64::MIN + TOKEN_BUFFER_SECONDS {
        false
    } else {
        now < expiry - TOKEN_BUFFER_SECONDS
    }
}

impl TokenState {
    /// The record that a token response describes.
    pub fn from_response(token: &TokenResponse) -> (r: TokenState)
        ensures
            r@ == token.credentials(),
    {
        TokenState {
            access_token: token.access_token.clone(),
            refresh_token: token.refresh_token.clone(),
            expires_at: token.expires_in,
            refresh_expires_at: token.refresh_expires_in,
        }
    }

    /// The access token; empty while there is none.
    pub fn access_token(&self) -> (r: &str)
        ensures
            r@ == self@.access_token,
    {
        self.access_token.as_str()
    }

    /// The refresh token; empty while there is none.
    pub fn refresh_token(&self) -> (r: &str)
        ensures
            r@ == self@.refresh_token,
    {
        self.refresh_token.as_str()
    }

    /// The instant after which the access token must not be used.
    pub fn expires_at(&self) -> (r: i64)
        ensures
            r == self@.expires_at,
    {
        self.expires_at
    }

    /// The instant after which the refresh token must not be used.
    pub fn refresh_expires_at(&self) -> (r: i64)
        ensures
            r == self@.refresh_expires_at,
    {
        self.refresh_expires_at
    }

    /// Whether the access token can be used at `now`.
    pub fn is_valid(&self, now: i64) -> (r: bool)
        ensures
            r == self@.is_valid(now),
    {
        !self.access_token.as_str().is_empty() && before_margin(now, self.expires_at)
    }

    /// Whether the refresh token can be used at `now`.
    pub fn refresh_is_possible(&self, now: i64) -> (r: bool)
        ensures
            r == self@.refresh_is_possible(now),
    {
        !self.refresh_token.as_str().is_empty() && before_margin(now, self.refresh_expires_at)
    }

    /// A copy of the access token and of the refresh token, in this order.
    pub fn snapshot(&self) -> (r: (String, String))
        ensures
            r.0@ == self@.access_token,
            r.1@ == self@.refresh_token,
    {
        (self.access_token.clone(), self.refresh_token.clone())
    }

    /// Puts `new_record` in the place of the whole record.
    pub fn replace(&mut self, new_record: TokenState)
        ensures
            *final(self) == new_record,
    {
        *self = new_record;
    }
}

/// The record that a reply puts in the cache: that of the token response, or
/// none where the exchange failed.
pub open spec fn reply_record(reply: Result<TokenResponse, QPayError>) -> Option<TokenStateView> {
    match reply {
        Ok(token) => Some(token.credentials()),
        Err(_) => None,
    }
}

impl TokenStateView {
    /// The cache and the decision after a refresh was answered with `reply`.
    pub open spec fn after_refresh(self, reply: Option<TokenStateView>) -> (
        TokenStateView,
        TokenPlan,
    ) {
        match reply {
            Some(record) => (record, TokenPlan::Ready),
            None => (self, TokenPlan::Authenticate),
        }
    }

    /// The cache after a full authentication was answered with `reply`, and
    /// whether a token was obtained.
    pub open spec fn after_authentication(self, reply: Option<TokenStateView>) -> (
        TokenStateView,
        bool,
    ) {
        match reply {
            Some(record) => (record, true),
            None => (self, false),
        }
    }
}

/// One exchange made to come by a token.
pub enum TokenCall {
    /// A refresh that presented this refresh token.
    Refresh { refresh_token: Seq<char> },
    /// A full authentication with the primary credential.
    Authenticate,
}

/// What the token endpoints answer during one pass: for each exchange the
/// record of its token response, or none where the exchange fails.
pub struct TokenReplies {
    pub refresh: Option<TokenStateView>,
    pub authentication: Option<TokenStateView>,
}

/// What one pass of token acquisition comes to: the exchanges made, in
/// order, the cache afterwards, and whether the caller has a token to go on
/// with.
pub struct TokenRun {
    pub calls: Seq<TokenCall>,
    pub state: TokenStateView,
    pub granted: bool,
}

/// One pass: when it is made and what the endpoints answer.
pub struct TokenPass {
    pub now: i64,
    pub replies: TokenReplies,
}

impl TokenStateView {
    /// The pass that starts at `now` on this cache: the decision, then each
    /// exchange it leads to, answered by `replies`.
    ///
    /// This is the course that a caller of the client takes. The decision is
    /// that of `QPayClient::ensure_token`. The reply to a refresh goes to
    /// `QPayClient::refresh_completed`, which ends the pass or asks for the
    /// full authentication. The reply to a full authentication goes to
    /// `QPayClient::authentication_completed`, which ends the pass.
    pub open spec fn acquire(self, now: i64, replies: TokenReplies) -> TokenRun {
        match self.plan(now) {
            TokenPlan::Ready => TokenRun { calls: Seq::empty(), state: self, granted: true },
            TokenPlan::Refresh => {
                let calls = seq![TokenCall::Refresh { refresh_token: self.refresh_token }];
                let (state, next) = self.after_refresh(replies.refresh);
                if next == TokenPlan::Ready {
                    TokenRun { calls, state, granted: true }
                } else {
                    let (state, granted) = state.after_authentication(replies.authentication);
                    TokenRun { calls: calls.push(TokenCall::Authenticate), state, granted }
                }
            },
            TokenPlan::Authenticate => {
                let (state, granted) = self.after_authentication(replies.authentication);
                TokenRun { calls: seq![TokenCall::Authenticate], state, granted }
            },
        }
    }

    /// Several passes, one after the other, each on the cache that the one
    /// before left.
    pub open spec fn acquire_all(self, passes: Seq<TokenPass>) -> TokenRun
        decreases passes.len(),
    {
        if passes.len() == 0 {
            TokenRun { calls: Seq::empty(), state: self, granted: true }
        } else {
            let first = self.acquire(passes[0].now, passes[0].replies);
            let rest = first.state.acquire_all(passes.drop_first());
            TokenRun {
                calls: first.calls + rest.calls,
                state: rest.state,
                granted: first.granted && rest.granted,
            }
        }
    }
}

/// While the access token is valid, no exchange is made: any number of
/// passes, each at a moment at which the token is valid, make no call, leave
/// the cache as it is, and all go on.
pub proof fn lemma_valid_token_makes_no_call(state: TokenStateView, passes: Seq<TokenPass>)
    requires
        forall|i: int| 0 <= i < passes.len() ==> state.is_valid(#[trigger] passes[i].now),
    ensures
        state.acquire_all(passes).calls == Seq::<TokenCall>::empty(),
        state.acquire_all(passes).state == state,
        state.acquire_all(passes).granted,
    decreases passes.len(),
{
    if passes.len() > 0 {
        let rest = passes.drop_first();
        assert(state.is_valid(passes[0].now));
        assert forall|i: int| 0 <= i < rest.len() implies state.is_valid(
            #[trigger] rest[i].now,
        ) by {
            assert(rest[i] == passes[i + 1]);
        }
        lemma_valid_token_makes_no_call(state, rest);
        assert(state.acquire_all(passes).calls =~= Seq::<TokenCall>::empty());
    }
}

/// With the access token expired and the refresh token usable, a refresh
/// that succeeds is the only exchange: it presents the refresh token of the
/// cache, no full authentication follows, and the cache then holds the record
/// of the refresh.
pub proof fn lemma_refresh_is_the_only_call(
    state: TokenStateView,
    now: i64,
    replies: TokenReplies,
)
    requires
        !state.is_valid(now),
        state.refresh_is_possible(now),
        replies.refresh is Some,
    ensures
        state.acquire(now, replies).calls == seq![
            TokenCall::Refresh { refresh_token: state.refresh_token },
        ],
        state.acquire(now, replies).state == replies.refresh->0,
        state.acquire(now, replies).granted,
{
}

/// With neither token usable, one full authentication is the only exchange.
/// The cache then holds its record, or is unchanged where it failed, and the
/// pass goes on exactly when it succeeded.
pub proof fn lemma_authentication_is_the_only_call(
    state: TokenStateView,
    now: i64,
    replies: TokenReplies,
)
    requires
        !state.is_valid(now),
        !state.refresh_is_possible(now),
    ensures
        state.acquire(now, replies).calls == seq![TokenCall::Authenticate],
        state.acquire(now, replies).granted == (replies.authentication is Some),
        state.acquire(now, replies).state == match replies.authentication {
            Some(record) => record,
            None => state,
        },
{
}

/// A refresh that fails is followed by a full authentication before the pass
/// ends, and the outcome of the pass is that of the authentication.
pub proof fn lemma_failed_refresh_falls_back(
    state: TokenStateView,
    now: i64,
    replies: TokenReplies,
)
    requires
        !state.is_valid(now),
        state.refresh_is_possible(now),
        replies.refresh is None,
    ensures
        state.acquire(now, replies).calls == seq![
            TokenCall::Refresh { refresh_token: state.refresh_token },
            TokenCall::Authenticate,
        ],
        state.acquire(now, replies).granted == (replies.authentication is Some),
        state.acquire(now, replies).state == match replies.authentication {
            Some(record) => record,
            None => state,
        },
{
    assert(seq![TokenCall::Refresh { refresh_token: state.refresh_token }].push(
        TokenCall::Authenticate,
    ) =~= seq![
        TokenCall::Refresh { refresh_token: state.refresh_token },
        TokenCall::Authenticate,
    ]);
}

} // verus!
