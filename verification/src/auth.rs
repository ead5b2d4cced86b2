//! Obtaining tokens at the caller's request.

use crate::client::QPayClient;
use crate::error::QPayError;
use crate::models::TokenResponse;
use vstd::prelude::*;

verus! {

impl QPayClient {
    /// Takes the reply to the full authentication of
    /// [`QPayClient::get_token_request`].
    ///
    /// A token response is stored in the cache and handed on. A failure is
    /// handed on as it is, and the cache stays as it was.
    pub fn get_token(&mut self, reply: Result<TokenResponse, QPayError>) -> (r: Result<
        TokenResponse,
        QPayError,
    >)
        ensures
            r == reply,
            final(self)@.config == old(self)@.config,
            final(self)@.token_state == match reply {
                Ok(token) => token.credentials(),
                Err(_) => old(self)@.token_state,
            },
    {
        match reply {
            Ok(token) => {
                self.store_token_response(&token);
                Ok(token)
            },
            Err(e) => Err(e),
        }
    }

    /// Takes the reply to a refresh that presented the refresh token of the
    /// cache (see [`QPayClient::refresh_request`]).
    ///
    /// A token response is stored in the cache and handed on. A failure is
    /// handed on as it is, and the cache stays as it was: no full
    /// authentication is tried in its place.
    pub fn refresh_token(&mut self, reply: Result<TokenResponse, QPayError>) -> (r: Result<
        TokenResponse,
        QPayError,
    >)
        ensures
            r == reply,
            final(self)@.config == old(self)@.config,
            final(self)@.token_state == match reply {
                Ok(token) => token.credentials(),
                Err(_) => old(self)@.token_state,
            },
    {
        match reply {
            Ok(token) => {
                self.store_token_response(&token);
                Ok(token)
            },
            Err(e) => Err(e),
        }
    }
}

} // verus!
