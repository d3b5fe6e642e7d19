//! A cached, short-lived bearer token, refreshed ahead of its expiry and
//! dropped when the backend refuses it.
//!
//! The cache does no network work. It answers from what it holds, and it is
//! handed the outcome of each authentication call, deciding whether to keep the
//! token, to try again after a fixed delay, or to give up.

use crate::error::{is_success_status, TranslationError};
use crate::text::{concat, decimal, decimal_text};
use vstd::prelude::*;

verus! {

/// How long a fetched token is kept, in milliseconds (nine minutes, shorter
/// than the issuer's validity).
pub const TOKEN_LIFETIME_MS: u64 = 540_000;

/// A token is served only while more than this remains before its expiry.
pub const REFRESH_MARGIN_MS: u64 = 60_000;

/// Authentication calls made before giving up.
pub const AUTH_ATTEMPTS: u32 = 3;

/// Fixed delay between authentication calls, in milliseconds.
pub const AUTH_RETRY_DELAY_MS: u64 = 1_000;

/// A token and the time it stops being served at.
#[derive(Debug, Clone, PartialEq, Eq)]
pub struct CachedToken {
    pub value: String,
    pub expires_at_ms: u64,
}

/// The expiry of a token fetched at `now`, held at the largest `u64`.
pub open spec fn expiry_from(now: u64) -> u64 {
    if now + TOKEN_LIFETIME_MS <= u64::MAX {
        (now + TOKEN_LIFETIME_MS) as u64
    } else {
        u64::MAX
    }
}

/// Whether a token expiring at `expires_at` may still be served at `now`.
pub open spec fn is_fresh(expires_at: u64, now: u64) -> bool {
    expires_at - now > REFRESH_MARGIN_MS
}

/// The outcome of one authentication call.
#[derive(Debug, PartialEq, Eq)]
pub enum AuthReply {
    /// The service answered with `status`; `body` is its text, or why it
    /// could not be read.
    Answered { status: u16, body: Result<String, String> },
    /// The transport failed, with its description.
    Transport(String),
}

/// What follows an authentication call.
#[derive(Debug, PartialEq, Eq)]
pub enum AuthStep {
    /// A token was obtained and is now cached.
    Done(String),
    /// Call again after this many milliseconds.
    RetryAfterMs(u64),
    /// Authentication failed.
    Fail(TranslationError),
}

/// Source of credentials for one translator: a static key, or a token fetched
/// and cached.
#[derive(Debug)]
pub struct TokenCache {
    /// A configured key; when present it is always served and nothing is fetched.
    pub static_key: Option<String>,
    /// The fetched token, if any.
    pub cached: Option<CachedToken>,
}

impl TokenCache {
    /// What the cache serves at `now`, if anything.
    pub open spec fn answer(&self, now: u64) -> Option<String> {
        match self.static_key {
            Some(k) => Some(k),
            None => match self.cached {
                Some(c) => if is_fresh(c.expires_at_ms, now) {
                    Some(c.value)
                } else {
                    None
                },
                None => None,
            },
        }
    }

    /// The cache once `token` was fetched at `now`.
    pub open spec fn with_token(self, token: String, now: u64) -> TokenCache {
        TokenCache {
            static_key: self.static_key,
            cached: Some(CachedToken { value: token, expires_at_ms: expiry_from(now) }),
        }
    }

    /// The cache with its token dropped.
    pub open spec fn without_token(self) -> TokenCache {
        TokenCache { static_key: self.static_key, cached: None }
    }

    /// An empty cache, with a static key or without.
    pub fn new(static_key: Option<String>) -> (r: TokenCache)
        ensures
            r.static_key == static_key,
            r.cached.is_none(),
    {
        TokenCache { static_key, cached: None }
    }

    /// The credential to use at `now`: the static key if configured, else the
    /// cached token while more than the margin remains before its expiry.
    /// `None` means a token must be fetched.
    pub fn lookup(&self, now_ms: u64) -> (r: Option<String>)
        ensures
            r == self.answer(now_ms),
    {
        match &self.static_key {
            Some(k) => Some(k.clone()),
            None => match &self.cached {
                Some(c) => {
                    if c.expires_at_ms > now_ms && c.expires_at_ms - now_ms > REFRESH_MARGIN_MS {
                        Some(c.value.clone())
                    } else {
                        None
                    }
                },
                None => None,
            },
        }
    }

    /// Caches `token`, fetched at `now_ms`, for the token lifetime.
    pub fn store(&mut self, token: String, now_ms: u64)
        ensures
            *final(self) == old(self).with_token(token, now_ms),
    {
        let expires_at_ms = if now_ms <= u64::MAX - TOKEN_LIFETIME_MS {
            now_ms + TOKEN_LIFETIME_MS
        } else {
            u64::MAX
        };
        self.cached = Some(CachedToken { value: token, expires_at_ms });
    }

    /// Drops the cached token, so that the next lookup fetches a new one.
    pub fn invalidate(&mut self)
        ensures
            *final(self) == old(self).without_token(),
    {
        self.cached = None;
    }

    /// Handles the outcome of authentication call number `attempt` (from 1),
    /// made at `now_ms`. A success status with a readable body yields the
    /// token, which is cached. A success status whose body cannot be read is
    /// an authentication error at once. Another status, or a transport failure,
    /// leads to another call after the fixed delay, unless this was the last
    /// allowed call: then it is an authentication error, or a network error.
    pub fn on_auth_reply(&mut self, attempt: u32, reply: AuthReply, now_ms: u64) -> (r: AuthStep)
        ensures
            auth_outcome(*old(self), attempt, reply, now_ms, r, *final(self)),
    {
        match reply {
            AuthReply::Answered { status, body } => {
                if 200 <= status && status <= 299 {
                    match body {
                        Ok(token) => {
                            self.store(token.clone(), now_ms);
                            AuthStep::Done(token)
                        },
                        Err(detail) => AuthStep::Fail(
                            TranslationError::AuthenticationError(
                                concat("Failed to read auth response: ", detail.as_str()),
                            ),
                        ),
                    }
                } else if attempt < AUTH_ATTEMPTS {
                    AuthStep::RetryAfterMs(AUTH_RETRY_DELAY_MS)
                } else {
                    let code = decimal_text(status as u64);
                    AuthStep::Fail(
                        TranslationError::AuthenticationError(
                            concat("Failed to authenticate: HTTP ", code.as_str()),
                        ),
                    )
                }
            },
            AuthReply::Transport(detail) => {
                if attempt < AUTH_ATTEMPTS {
                    AuthStep::RetryAfterMs(AUTH_RETRY_DELAY_MS)
                } else {
                    AuthStep::Fail(TranslationError::NetworkError(detail))
                }
            },
        }
    }
}

/// The handling of the outcome `reply` of authentication call number `attempt`
/// made at `now_ms`, and the cache `after` it.
pub open spec fn auth_outcome(
    c: TokenCache,
    attempt: u32,
    reply: AuthReply,
    now_ms: u64,
    r: AuthStep,
    after: TokenCache,
) -> bool {
    match reply {
        AuthReply::Answered { status, body } => if is_success_status(status) {
            match body {
                Ok(t) => r == AuthStep::Done(t) && after == c.with_token(t, now_ms),
                Err(detail) => (r matches AuthStep::Fail(TranslationError::AuthenticationError(m))
                    && m@ == "Failed to read auth response: "@ + detail@) && after == c,
            }
        } else if attempt < AUTH_ATTEMPTS {
            r == AuthStep::RetryAfterMs(AUTH_RETRY_DELAY_MS) && after == c
        } else {
            (r matches AuthStep::Fail(TranslationError::AuthenticationError(m)) && m@
                == "Failed to authenticate: HTTP "@ + decimal(status as nat)) && after == c
        },
        AuthReply::Transport(detail) => if attempt < AUTH_ATTEMPTS {
            r == AuthStep::RetryAfterMs(AUTH_RETRY_DELAY_MS) && after == c
        } else {
            r == AuthStep::Fail(TranslationError::NetworkError(detail)) && after == c
        },
    }
}

/// Token reuse: once a token is fetched at `t1`, every lookup before its
/// refresh point (more than the margin before expiry) serves the same
/// credential, so back-to-back requests, and a request that waited for another
/// caller's refresh, cause no further authentication call. Without a static
/// key that credential is the fetched token.
pub proof fn lemma_token_reused(c: TokenCache, token: String, t1: u64, t2: u64)
    requires
        t1 <= t2,
        t2 + REFRESH_MARGIN_MS < expiry_from(t1),
    ensures
        c.with_token(token, t1).answer(t2) == c.with_token(token, t1).answer(t1),
        c.with_token(token, t1).answer(t2).is_some(),
        c.static_key.is_none() ==> c.with_token(token, t1).answer(t2) == Some(token),
{
}

/// Token reuse after a fetch: when an authentication call made at `fetched_at`
/// yields a token, every lookup from then until its refresh point serves that
/// token (or the configured key), so a second request in that time, including
/// one that waited for this fetch, makes no authentication call.
pub proof fn lemma_fetched_token_reused(
    c: TokenCache,
    attempt: u32,
    reply: AuthReply,
    fetched_at: u64,
    r: AuthStep,
    after: TokenCache,
    later: u64,
)
    requires
        auth_outcome(c, attempt, reply, fetched_at, r, after),
        r is Done,
        fetched_at <= later,
        later + REFRESH_MARGIN_MS < expiry_from(fetched_at),
    ensures
        after.answer(later) == after.answer(fetched_at),
        c.static_key.is_none() ==> after.answer(later) == Some(r->Done_0),
{
}

/// Invalidation: without a static key, a lookup right after `invalidate`
/// finds nothing, whatever was cached and whenever, so a new token is fetched.
pub proof fn lemma_invalidate_forces_refresh(c: TokenCache, now: u64)
    requires
        c.static_key.is_none(),
    ensures
        c.without_token().answer(now).is_none(),
{
}

} // verus!
