//! The token manager's logic: the claim set of the signed assertion, and
//! the refresh schedule that keeps the cached bearer token fresh. The
//! signing and the exchange are I/O, done by the transport; what is
//! claimed and when to refresh is decided — and verified — here.

use crate::clock::unix_time_now;
use vstd::prelude::*;

verus! {

/// How long a signed assertion lives: the endpoint's maximum of one hour.
pub const ASSERTION_LIFETIME_SECS: i64 = 3600;

/// Refresh this long before the token expires.
pub const REFRESH_LEAD_SECS: u64 = 600;

/// Retry a failed refresh after this long, so a transient failure never
/// turns into a hard one when the old token finally expires.
pub const REFRESH_RETRY_SECS: u64 = 10;

/// The claim set of the signed assertion exchanged for a bearer token.
#[derive(Debug)]
pub struct Claims {
    /// The service account's email, as the issuer.
    pub iss: String,
    /// The datastore access scope.
    pub scope: String,
    /// The token endpoint the assertion is intended for.
    pub aud: String,
    /// Expiry, seconds since the epoch: one hour after issuance.
    pub exp: i64,
    /// Issuance time, seconds since the epoch.
    pub iat: i64,
}

/// Builds the claim set for an assertion issued at `now`.
pub fn build_claims(email: &str, now: i64) -> (r: Claims)
    requires
        now <= i64::MAX - ASSERTION_LIFETIME_SECS,
    ensures
        r.iss@ == email@,
        r.scope@ == "https://www.googleapis.com/auth/datastore"@,
        r.aud@ == "https://oauth2.googleapis.com/token"@,
        r.iat == now,
        r.exp == now + ASSERTION_LIFETIME_SECS,
{
    Claims {
        iss: email.to_owned(),
        scope: "https://www.googleapis.com/auth/datastore".to_owned(),
        aud: "https://oauth2.googleapis.com/token".to_owned(),
        exp: now + ASSERTION_LIFETIME_SECS,
        iat: now,
    }
}

/// Builds the claim set for an assertion issued now. `None` only if the
/// clock reading is too close to the end of representable time for the
/// expiry to fit.
pub fn fresh_claims(email: &str) -> (r: Option<Claims>)
    ensures
        r matches Some(c) ==> c.iss@ == email@ && c.scope@
            == "https://www.googleapis.com/auth/datastore"@ && c.aud@
            == "https://oauth2.googleapis.com/token"@ && c.exp == c.iat
            + ASSERTION_LIFETIME_SECS,
{
    let now = unix_time_now();
    if now <= i64::MAX - ASSERTION_LIFETIME_SECS {
        Some(build_claims(email, now))
    } else {
        None
    }
}

/// When to refresh next, given the token's reported lifetime: the lead
/// time before expiry, clamped to the retry delay so a short-lived token
/// can never drive the delay through zero.
pub open spec fn spec_refresh_delay(expires_in_secs: u64) -> u64 {
    if expires_in_secs > REFRESH_LEAD_SECS {
        (expires_in_secs - REFRESH_LEAD_SECS) as u64
    } else {
        REFRESH_RETRY_SECS
    }
}

pub fn refresh_delay_secs(expires_in_secs: u64) -> (r: u64)
    ensures
        r == spec_refresh_delay(expires_in_secs),
        r > 0,
{
    if expires_in_secs > REFRESH_LEAD_SECS {
        expires_in_secs - REFRESH_LEAD_SECS
    } else {
        REFRESH_RETRY_SECS
    }
}

/// The body of the token exchange: the fixed JWT-bearer grant type and
/// the signed assertion.
#[derive(Debug)]
pub struct TokenRequest {
    pub grant_type: String,
    pub assertion: String,
}

/// Builds the exchange request for a signed assertion.
pub fn build_token_request(assertion: String) -> (r: TokenRequest)
    ensures
        r.grant_type@ == "urn:ietf:params:oauth:grant-type:jwt-bearer"@,
        r.assertion == assertion,
{
    TokenRequest {
        grant_type: "urn:ietf:params:oauth:grant-type:jwt-bearer".to_owned(),
        assertion,
    }
}

/// What the token endpoint's answer means: only success carries a token;
/// any other status is an authentication failure, distinguished from a
/// transport failure (which never produces a status at all).
pub fn classify_token_exchange(status: u16) -> (r: Result<(), crate::errors::Error>)
    ensures
        r is Ok <==> status == 200,
        status != 200 ==> (r matches Err(e) && e is Auth),
{
    if status == 200 {
        Ok(())
    } else {
        Err(crate::errors::Error::Auth("token exchange rejected".to_owned()))
    }
}

/// The token cell the manager keeps behind its reader/writer lock: the
/// current bearer string and the lifetime the endpoint reported for it.
#[derive(Debug)]
pub struct TokenState {
    token: String,
    expires_in_secs: u64,
}

impl TokenState {
    pub closed spec fn spec_token(&self) -> Seq<char> {
        self.token@
    }

    pub closed spec fn spec_expires_in(&self) -> u64 {
        self.expires_in_secs
    }

    /// The state after the first successful exchange.
    pub fn new(token: String, expires_in_secs: u64) -> (r: TokenState)
        ensures
            r.spec_token() == token@,
            r.spec_expires_in() == expires_in_secs,
    {
        TokenState { token, expires_in_secs }
    }

    /// The latest cached token; a field read, so a reader never waits on
    /// the network.
    pub fn current_token(&self) -> (r: &String)
        ensures
            r@ == self.spec_token(),
    {
        &self.token
    }

    /// How long the refresh task should sleep before its next attempt.
    pub fn next_refresh_delay(&self) -> (r: u64)
        ensures
            r == spec_refresh_delay(self.spec_expires_in()),
            r > 0,
    {
        refresh_delay_secs(self.expires_in_secs)
    }

    /// A successful refresh replaces the token and its lifetime.
    pub fn on_refresh_success(&mut self, token: String, expires_in_secs: u64)
        ensures
            final (self).spec_token() == token@,
            final (self).spec_expires_in() == expires_in_secs,
    {
        self.token = token;
        self.expires_in_secs = expires_in_secs;
    }

    /// A failed refresh keeps the still-valid cached token — no caller is
    /// failed — and asks for a prompt retry.
    pub fn on_refresh_failure(&mut self) -> (r: u64)
        ensures
            r == REFRESH_RETRY_SECS,
            final (self).spec_token() == old(self).spec_token(),
            final (self).spec_expires_in() == old(self).spec_expires_in(),
    {
        REFRESH_RETRY_SECS
    }
}

} // verus!
