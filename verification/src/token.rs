//! The refreshing OAuth token for Twitch's client-credentials flow.
//!
//! The holder keeps the current access token and its expiry instant (in
//! milliseconds, on the same clock every caller passes in). The token POST
//! itself is network work done by the caller; this module decides, exactly,
//! when a refresh is due, what a refresh response means, and how the expiry
//! is computed from it.

use vstd::prelude::*;

use crate::platform::Platform;
use crate::platform::PlatformError;

verus! {

/// The decoded body of a successful OAuth token response.
#[derive(Debug, Clone)]
pub struct OauthResponse {
    pub access_token: String,
    /// Validity of the token, in seconds.
    pub expires_in: u64,
}

/// The expiry instant of a token obtained at `now` that is valid for
/// `expires_in` seconds, saturating at the clock's end.
pub open spec fn spec_expiry(now: u64, expires_in: u64) -> u64 {
    if now + expires_in * 1000 > u64::MAX {
        u64::MAX
    } else {
        (now + expires_in * 1000) as u64
    }
}

/// The access token and expiry for Twitch requests.
///
/// Neither the client secret nor the token itself is printed anywhere: the
/// type has no `Debug` form.
#[derive(Clone)]
pub struct TwitchRefreshingToken {
    access_token: String,
    token_expiry: u64,
}

impl TwitchRefreshingToken {
    /// The current access token.
    pub closed spec fn token(self) -> Seq<char> {
        self.access_token@
    }

    /// The instant the token stops being valid.
    pub closed spec fn expiry(self) -> u64 {
        self.token_expiry
    }

    /// Whether the token is still valid at `now`.
    pub open spec fn is_fresh(self, now: u64) -> bool {
        now < self.expiry()
    }

    /// Holds the token of a successful acquisition made at `now`.
    pub fn new(resp: OauthResponse, now: u64) -> (r: Self)
        ensures
            r.token() == resp.access_token@,
            r.expiry() == spec_expiry(now, resp.expires_in),
    {
        let ms = match resp.expires_in.checked_mul(1000) {
            Some(v) => v,
            None => u64::MAX,
        };
        let token_expiry = match now.checked_add(ms) {
            Some(v) => v,
            None => u64::MAX,
        };
        TwitchRefreshingToken { access_token: resp.access_token, token_expiry }
    }

    /// The token, when it is still valid at `now`. Absent exactly when a
    /// refresh is due: the caller then performs the refresh POST and hands
    /// the response to [`TwitchRefreshingToken::apply_refresh`].
    pub fn get_token(&self, now: u64) -> (r: Option<&String>)
        ensures
            match r {
                Some(t) => self.is_fresh(now) && t@ == self.token(),
                None => !self.is_fresh(now),
            },
    {
        if now < self.token_expiry {
            Some(&self.access_token)
        } else {
            None
        }
    }

    /// Installs the token of a refresh made at `now`. Concurrent refreshes
    /// each write; the last write wins.
    pub fn apply_refresh(&mut self, resp: OauthResponse, now: u64)
        ensures
            final(self).token() == resp.access_token@,
            final(self).expiry() == spec_expiry(now, resp.expires_in),
    {
        let fresh = TwitchRefreshingToken::new(resp, now);
        self.access_token = fresh.access_token;
        self.token_expiry = fresh.token_expiry;
    }
}

/// What an OAuth token response status means: 2xx carries a token, 401 is a
/// rejection of the credentials, anything else a failed upstream request.
pub fn classify_oauth_status(status: u16) -> (r: Result<(), PlatformError>)
    ensures
        200 <= status < 300 <==> r is Ok,
        status == 401 ==> r == Err::<(), PlatformError>(
            PlatformError::Unauthorized(Platform::Twitch),
        ),
        (status < 200 || status >= 300) && status != 401 ==> r == Err::<(), PlatformError>(
            PlatformError::RequestFailure,
        ),
{
    if 200 <= status && status < 300 {
        Ok(())
    } else if status == 401 {
        Err(PlatformError::Unauthorized(Platform::Twitch))
    } else {
        Err(PlatformError::RequestFailure)
    }
}

/// Token-refresh law: once a refresh made at `t` is installed, the token is
/// returned without another refresh at every instant before the new expiry,
/// and a refresh is due again only from that expiry on. With the contract of
/// [`TwitchRefreshingToken::get_token`], a caller that refreshes only when
/// `get_token` returns absent issues no second refresh inside the validity
/// window.
pub proof fn lemma_token_refresh(tok: TwitchRefreshingToken, t: u64, expires_in: u64, now: u64)
    requires
        tok.expiry() == spec_expiry(t, expires_in),
    ensures
        now < spec_expiry(t, expires_in) ==> tok.is_fresh(now),
        now >= spec_expiry(t, expires_in) ==> !tok.is_fresh(now),
        expires_in >= 1 && t < u64::MAX ==> tok.is_fresh(t),
{
}

} // verus!
