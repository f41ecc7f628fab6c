use crate::error::{AlipanError, ErrorInfo};
use vstd::prelude::*;

verus! {

/// A token as the OAuth endpoint returns it.
#[derive(Debug)]
pub struct OauthAccessToken {
    pub token_type: String,
    pub access_token: String,
    pub refresh_token: String,
    /// Lifetime in seconds.
    pub expires_in: i64,
}

/// A token together with the moment it was minted (unix seconds).
#[derive(Debug)]
pub struct AccessToken {
    pub access_token: String,
    pub token_type: String,
    pub expires_in: i64,
    pub refresh_token: String,
    pub created_at: i64,
}

impl Clone for AccessToken {
    fn clone(&self) -> (r: Self)
        ensures
            r == *self,
    {
        AccessToken {
            access_token: self.access_token.clone(),
            token_type: self.token_type.clone(),
            expires_in: self.expires_in,
            refresh_token: self.refresh_token.clone(),
            created_at: self.created_at,
        }
    }
}

/// Relies on chrono::Utc::now and DateTime::timestamp: the current unix time in seconds.
#[verifier::external_body]
fn unix_now() -> (r: i64) {
    chrono::Utc::now().timestamp()
}

/// Age, in seconds, from which a token of lifetime `expires_in` is refreshed: three
/// quarters of its lifetime, the division rounding toward zero.
pub open spec fn refresh_threshold(expires_in: int) -> int {
    if expires_in >= 0 {
        expires_in * 3 / 4
    } else {
        -((-expires_in) * 3 / 4)
    }
}

/// Whether `t` is still used as it is at time `now`.
pub open spec fn is_fresh_at(t: AccessToken, now: int) -> bool {
    now - t.created_at < refresh_threshold(t.expires_in as int)
}

/// The token record made from an exchanged token at time `now`.
pub open spec fn minted(token: OauthAccessToken, now: i64) -> AccessToken {
    AccessToken {
        access_token: token.access_token,
        token_type: token.token_type,
        expires_in: token.expires_in,
        refresh_token: token.refresh_token,
        created_at: now,
    }
}

impl AccessToken {
    /// The record of a token minted at `now`.
    pub fn wrap_oauth_token_at(token: OauthAccessToken, now: i64) -> (r: Self)
        ensures
            r == minted(token, now),
    {
        AccessToken {
            access_token: token.access_token,
            token_type: token.token_type,
            expires_in: token.expires_in,
            refresh_token: token.refresh_token,
            created_at: now,
        }
    }

    /// The record of a token minted now, by the system clock.
    pub fn wrap_oauth_token(token: OauthAccessToken) -> (r: Self)
        ensures
            r == minted(token, r.created_at),
    {
        let now = unix_now();
        AccessToken::wrap_oauth_token_at(token, now)
    }

    /// Whether the token is still young enough at `now` to be used without a refresh.
    pub fn is_fresh(&self, now: i64) -> (r: bool)
        ensures
            r == is_fresh_at(*self, now as int),
    {
        let magnitude: u128 = if self.expires_in >= 0 {
            self.expires_in as u128
        } else {
            (-(self.expires_in as i128)) as u128
        };
        let quarter3: i128 = (magnitude * 3 / 4) as i128;
        let threshold: i128 = if self.expires_in >= 0 {
            quarter3
        } else {
            -quarter3
        };
        (now as i128) - (self.created_at as i128) < threshold
    }
}

/// What the refresh engine does with what the store holds.
#[derive(Debug)]
pub enum TokenDecision {
    /// The stored token is fresh enough: use it as it is, with no network call.
    Fresh(AccessToken),
    /// The stored token is too old: exchange this refresh token for a new one.
    Refresh(String),
    /// The store holds nothing.
    NoToken,
}

pub open spec fn token_decision(stored: Option<AccessToken>, now: int) -> TokenDecision {
    match stored {
        None => TokenDecision::NoToken,
        Some(t) => if is_fresh_at(t, now) {
            TokenDecision::Fresh(t)
        } else {
            TokenDecision::Refresh(t.refresh_token)
        },
    }
}

/// Decides, from the token the store holds at time `now`, whether to use it or refresh it.
pub fn decide_token(stored: Option<AccessToken>, now: i64) -> (r: TokenDecision)
    ensures
        r == token_decision(stored, now as int),
{
    match stored {
        None => TokenDecision::NoToken,
        Some(t) => {
            if t.is_fresh(now) {
                TokenDecision::Fresh(t)
            } else {
                TokenDecision::Refresh(t.refresh_token)
            }
        },
    }
}

/// A stale token leads to one refresh exchange with its refresh token, and the record
/// minted from the exchanged token at that moment is strictly newer. (Where three
/// quarters of the lifetime round down to zero or less, a token is already stale at the
/// moment it was minted, and no newer record can be promised.)
pub proof fn lemma_stale_token_is_refreshed(t: AccessToken, now: i64, exchanged: OauthAccessToken)
    requires
        !is_fresh_at(t, now as int),
        refresh_threshold(t.expires_in as int) > 0,
    ensures
        token_decision(Some(t), now as int) == TokenDecision::Refresh(t.refresh_token),
        minted(exchanged, now).created_at > t.created_at,
{
}

/// A fresh token is handed back unchanged, with no refresh exchange.
pub proof fn lemma_fresh_token_is_kept(t: AccessToken, now: i64)
    requires
        is_fresh_at(t, now as int),
    ensures
        token_decision(Some(t), now as int) == TokenDecision::Fresh(t),
{
}

/// The last step of a refresh: the record minted from the exchanged token at `now` is
/// written over whatever the store held, and handed back once the store took it.
pub fn complete_refresh<S: AccessTokenStore + ?Sized>(store: &mut S, exchanged: OauthAccessToken, now: i64) -> (r: Result<
    AccessToken,
    AlipanError,
>)
    ensures
        r is Ok ==> r->Ok_0 == minted(exchanged, now),
{
    let token = AccessToken::wrap_oauth_token_at(exchanged, now);
    match store.set_access_token(token.clone()) {
        Ok(()) => Ok(token),
        Err(e) => Err(e),
    }
}

/// The error reported when the store holds no token.
pub fn no_token_error() -> (r: AlipanError)
    ensures
        r.inner is NoAccessToken,
{
    AlipanError::new(ErrorInfo::NoAccessToken)
}

/// Where the single current token is kept. Implementations decide the medium (memory,
/// a file, a database); the refresh engine only reads and overwrites.
pub trait AccessTokenStore {
    fn get_access_token(&self) -> Result<Option<AccessToken>, AlipanError>;

    fn set_access_token(&mut self, access_token: AccessToken) -> Result<(), AlipanError>;
}

/// A store that keeps the token in memory.
#[derive(Debug)]
pub struct InMemoryAccessTokenStore {
    access_token: Option<AccessToken>,
}

impl InMemoryAccessTokenStore {
    pub closed spec fn held(&self) -> Option<AccessToken> {
        self.access_token
    }

    pub fn new() -> (r: Self)
        ensures
            r.held() is None,
    {
        InMemoryAccessTokenStore { access_token: None }
    }

    /// The token held, if any.
    pub fn current(&self) -> (r: Option<AccessToken>)
        ensures
            r == self.held(),
    {
        match &self.access_token {
            Some(t) => Some(t.clone()),
            None => None,
        }
    }

    /// Replaces whatever was held by `access_token`.
    pub fn replace(&mut self, access_token: AccessToken)
        ensures
            final(self).held() == Some(access_token),
    {
        self.access_token = Some(access_token);
    }
}

impl Default for InMemoryAccessTokenStore {
    fn default() -> (r: Self)
        ensures
            r.held() is None,
    {
        InMemoryAccessTokenStore::new()
    }
}

impl AccessTokenStore for InMemoryAccessTokenStore {
    fn get_access_token(&self) -> (r: Result<Option<AccessToken>, AlipanError>)
        ensures
            r is Ok && r->Ok_0 == self.held(),
    {
        Ok(self.current())
    }

    fn set_access_token(&mut self, access_token: AccessToken) -> (r: Result<(), AlipanError>)
        ensures
            r is Ok,
            final(self).held() == Some(access_token),
    {
        self.replace(access_token);
        Ok(())
    }
}

/// The loader in place before any token source is configured: it always fails.
#[derive(Debug)]
pub struct UninitializedAccessTokenLoader;

impl UninitializedAccessTokenLoader {
    pub fn get_access_token(&self) -> (r: Result<AccessToken, AlipanError>)
        ensures
            r is Err && r->Err_0.inner is Msg,
    {
        Err(AlipanError::msg(String::from_str("uninitialized access token loader")))
    }
}

} // verus!
