//! Signed tokens: the session token that a log-in sets, and the temporary
//! token that carries a new OAuth user's identity to the username page.
//! Both are HS256 JSON Web Tokens made and read by `jsonwebtoken`.

use vstd::prelude::*;
use jsonwebtoken::{decode, encode, DecodingKey, EncodingKey, Header, Validation};
use serde_json::Value;
use uuid::Uuid;
use crate::error::{AppError, AppErrorView, ExternalFailure, ExternalFailureView, failure_error};

verus! {

/// How long a session token lasts: 24 hours, in seconds.
pub const SESSION_LIFETIME_SECS: u64 = 86400;

/// How long a temporary OAuth token lasts: 10 minutes, in seconds.
pub const TEMP_LIFETIME_SECS: u64 = 600;

/// How long after its expiry a token is still accepted, for clocks that
/// differ: 60 seconds.
pub const EXPIRY_LEEWAY_SECS: u64 = 60;

/// What making and reading tokens needs: the secret they are signed with,
/// and the time of the request in seconds since the Unix epoch.
#[derive(Debug)]
pub struct TokenContext {
    pub secret: String,
    pub now: u64,
}

impl TokenContext {
    /// Whether the expiry of a token made now fits in 64 bits.
    pub open spec fn usable(self) -> bool {
        self.now + SESSION_LIFETIME_SECS <= u64::MAX
    }
}

/// The claims of a session token.
#[derive(Debug)]
pub struct Claims {
    /// The account's identifier.
    pub sub: u128,
    pub email: String,
    /// Expiry, in seconds since the Unix epoch.
    pub exp: u64,
}

/// The claims of the temporary token that carries a new OAuth user's
/// identity to the username page.
#[derive(Debug)]
pub struct TempOAuthClaims {
    pub sub: u128,
    pub email: String,
    pub name: String,
    pub oauth_id: String,
    pub oauth_provider: String,
    pub exp: u64,
}

impl Claims {
    /// The claims of a session for `user_id` that starts at `now`.
    pub fn for_session(user_id: u128, email: &str, now: u64) -> (c: Claims)
        requires
            now + SESSION_LIFETIME_SECS <= u64::MAX,
        ensures
            c.sub == user_id,
            c.email@ == email@,
            c.exp == now + SESSION_LIFETIME_SECS,
    {
        Claims { sub: user_id, email: email.to_owned(), exp: now + SESSION_LIFETIME_SECS }
    }
}

/// The claims of a temporary token as plain values: identifier, e-mail
/// address, name, provider's identifier, provider, expiry.
pub open spec fn temp_claims_view(c: TempOAuthClaims) -> (u128, Seq<char>, Seq<char>, Seq<char>, Seq<char>, u64) {
    (c.sub, c.email@, c.name@, c.oauth_id@, c.oauth_provider@, c.exp)
}

/// The token that `jsonwebtoken::encode` makes with the default header
/// (HS256) and the key `secret`, for the claims `sub` (as a hyphenated
/// UUID), `email`, `exp` and, where `profile` is given, `name`, `oauth_id`
/// and `oauth_provider`.
pub uninterp spec fn signed_jwt(
    secret: Seq<char>,
    sub: u128,
    email: Seq<char>,
    profile: Option<(Seq<char>, Seq<char>, Seq<char>)>,
    exp: u64,
) -> Seq<char>;

/// The claims that `jsonwebtoken::decode` reads from `token` with the key
/// `secret` (signature and algorithm checked, expiry present but not compared
/// with the clock), where they are those of a temporary token; `None` where
/// the token is refused or its claims have another shape.
pub uninterp spec fn temp_claims_in(secret: Seq<char>, token: Seq<char>) -> Option<
    (u128, Seq<char>, Seq<char>, Seq<char>, Seq<char>, u64),
>;

/// The views of the optional name, provider's identifier and provider.
pub open spec fn profile_view(p: Option<(&str, &str, &str)>) -> Option<(Seq<char>, Seq<char>, Seq<char>)> {
    match p {
        Some(t) => Some((t.0@, t.1@, t.2@)),
        None => None,
    }
}

/// Signs the claims with `jsonwebtoken::encode`, the default header and the
/// key made from the bytes of `secret`. The claims go in as a JSON object
/// (`serde_json`'s map, which keeps the order of insertion: `sub`, `email`,
/// `name`, `oauth_id`, `oauth_provider`, `exp`).
///
/// Claimed, as the crate's source shows: the call succeeds (the key's family,
/// HMAC, is that of the header's algorithm, HS256; a map of strings and
/// numbers always serializes; HMAC signing cannot fail: encoding.rs `encode`,
/// crypto/mod.rs `sign`); a token made with a profile is read back by
/// `decode_claims` with the same secret as exactly these claims; and a token
/// made without one is read back by `decode_claims` with no secret at all,
/// since its claims lack `name`, `oauth_id` and `oauth_provider` (and a
/// token whose signature does not check is refused before its claims are
/// read).
#[verifier::external_body]
fn sign_claims(secret: &str, sub: u128, email: &str, profile: Option<(&str, &str, &str)>, exp: u64) -> (r: Option<String>)
    ensures
        r is Some,
        r matches Some(t) ==> t@ == signed_jwt(secret@, sub, email@, profile_view(profile), exp),
        r matches Some(t) ==> (profile matches Some(p) ==> temp_claims_in(secret@, t@) == Some(
            (sub, email@, p.0@, p.1@, p.2@, exp),
        )),
        r matches Some(t) ==> (profile is None ==> forall|key: Seq<char>| #[trigger] temp_claims_in(key, t@) is None),
{
    let mut m = serde_json::Map::new();
    m.insert("sub".to_owned(), Value::from(Uuid::from_u128(sub).to_string()));
    m.insert("email".to_owned(), Value::from(email));
    if let Some((name, oauth_id, provider)) = profile {
        m.insert("name".to_owned(), Value::from(name));
        m.insert("oauth_id".to_owned(), Value::from(oauth_id));
        m.insert("oauth_provider".to_owned(), Value::from(provider));
    }
    m.insert("exp".to_owned(), Value::from(exp));
    encode(&Header::default(), &m, &EncodingKey::from_secret(secret.as_bytes())).ok()
}

/// Reads a temporary token with `jsonwebtoken::decode` and the default
/// validation (HS256 only, signature checked, `exp` required, no `aud`) but
/// without comparing `exp` with the clock: the caller does that with the time
/// it was given. The claims must hold `sub` as a UUID, the four texts and
/// `exp` as an unsigned integer; other claims are ignored, and where a claim
/// appears twice the last one is read. Claimed: the outcome, claims or
/// `None`, is the named reading of the secret and the token, and a token with
/// fewer than two dots, which cannot hold header, claims and signature, is
/// refused (decoding.rs `verify_signature` splits it at the last two dots).
#[verifier::external_body]
fn decode_claims(secret: &str, token: &str) -> (r: Option<TempOAuthClaims>)
    ensures
        match r {
            Some(c) => temp_claims_in(secret@, token@) == Some(temp_claims_view(c)),
            None => temp_claims_in(secret@, token@) is None,
        },
        dot_count(token@) < 2 ==> r is None,
{
    let mut v = Validation::default();
    v.validate_exp = false;
    let key = DecodingKey::from_secret(secret.as_bytes());
    let m = decode::<serde_json::Map<String, Value>>(token, &key, &v).ok()?.claims;
    Some(TempOAuthClaims {
        sub: Uuid::parse_str(m.get("sub")?.as_str()?).ok()?.as_u128(),
        email: m.get("email")?.as_str()?.to_owned(),
        name: m.get("name")?.as_str()?.to_owned(),
        oauth_id: m.get("oauth_id")?.as_str()?.to_owned(),
        oauth_provider: m.get("oauth_provider")?.as_str()?.to_owned(),
        exp: m.get("exp")?.as_u64()?,
    })
}

/// The number of dots in a text.
pub open spec fn dot_count(s: Seq<char>) -> nat
    decreases s.len(),
{
    if s.len() == 0 {
        0
    } else {
        dot_count(s.drop_last()) + if s.last() == '.' {
            1nat
        } else {
            0nat
        }
    }
}

/// The session token for `user_id` and `email` made at `now`: it expires a
/// day later.
pub open spec fn session_token(secret: Seq<char>, user_id: u128, email: Seq<char>, now: u64) -> Seq<char> {
    signed_jwt(secret, user_id, email, None, (now + SESSION_LIFETIME_SECS) as u64)
}

/// The temporary token for a new OAuth user made at `now`: it expires ten
/// minutes later.
pub open spec fn temp_token(
    secret: Seq<char>,
    temp_id: u128,
    email: Seq<char>,
    name: Seq<char>,
    oauth_id: Seq<char>,
    provider: Seq<char>,
    now: u64,
) -> Seq<char> {
    signed_jwt(secret, temp_id, email, Some((name, oauth_id, provider)), (now + TEMP_LIFETIME_SECS) as u64)
}

/// Whether a token that expires at `exp` is refused at `now`: it is once
/// the leeway past its expiry is over.
pub open spec fn expired(exp: u64, now: u64) -> bool {
    exp + EXPIRY_LEEWAY_SECS < now
}

/// The claims of a temporary token that is accepted at `now`.
pub open spec fn live_temp_claims(secret: Seq<char>, token: Seq<char>, now: u64) -> Option<
    (u128, Seq<char>, Seq<char>, Seq<char>, Seq<char>, u64),
> {
    match temp_claims_in(secret, token) {
        Some(c) => if expired(c.5, now) {
            None
        } else {
            Some(c)
        },
        None => None,
    }
}

/// The error of a token that is refused.
pub open spec fn token_refused_error() -> AppErrorView {
    failure_error(ExternalFailureView::TokenDecoding)
}

/// Signs a session token for `user_id` and `email` at `now`. A session
/// token is never accepted as a temporary token, whatever the secret and the
/// time it is read with.
pub fn create_jwt_token(secret: &str, user_id: u128, email: &str, now: u64) -> (r: Result<String, AppError>)
    requires
        now + SESSION_LIFETIME_SECS <= u64::MAX,
    ensures
        r matches Ok(t) && t@ == session_token(secret@, user_id, email@, now),
        r matches Ok(t) ==> forall|key: Seq<char>, at: u64| #[trigger] live_temp_claims(key, t@, at) is None,
{
    let claims = Claims::for_session(user_id, email, now);
    match sign_claims(secret, claims.sub, claims.email.as_str(), None, claims.exp) {
        Some(t) => Ok(t),
        None => Err(ExternalFailure::TokenCreation.to_app_error()),
    }
}

/// Signs a temporary token for a new OAuth user at `now`. Read back with the
/// same secret, it gives exactly these claims; it is accepted until ten
/// minutes and the leeway after `now`, and refused from then on.
pub fn create_temp_oauth_token(
    secret: &str,
    temp_id: u128,
    email: &str,
    name: &str,
    oauth_id: &str,
    oauth_provider: &str,
    now: u64,
) -> (r: Result<String, AppError>)
    requires
        now + TEMP_LIFETIME_SECS <= u64::MAX,
    ensures
        r matches Ok(t) && t@ == temp_token(secret@, temp_id, email@, name@, oauth_id@, oauth_provider@, now)
            && temp_claims_in(secret@, t@) == Some(
            (temp_id, email@, name@, oauth_id@, oauth_provider@, (now + TEMP_LIFETIME_SECS) as u64),
        ),
        r matches Ok(t) ==> forall|at: u64| (#[trigger] live_temp_claims(secret@, t@, at) is Some) == (at
            <= now + TEMP_LIFETIME_SECS + EXPIRY_LEEWAY_SECS),
{
    let claims = TempOAuthClaims {
        sub: temp_id,
        email: email.to_owned(),
        name: name.to_owned(),
        oauth_id: oauth_id.to_owned(),
        oauth_provider: oauth_provider.to_owned(),
        exp: now + TEMP_LIFETIME_SECS,
    };
    let profile = Some((claims.name.as_str(), claims.oauth_id.as_str(), claims.oauth_provider.as_str()));
    match sign_claims(secret, claims.sub, claims.email.as_str(), profile, claims.exp) {
        Some(t) => Ok(t),
        None => Err(ExternalFailure::TokenCreation.to_app_error()),
    }
}

/// Accepts decoded claims at `now` unless they have expired; claims that
/// could not be decoded, or have expired, are a `401` error.
pub fn unexpired_claims(decoded: Option<TempOAuthClaims>, now: u64) -> (r: Result<TempOAuthClaims, AppError>)
    ensures
        match decoded {
            Some(c) => if expired(c.exp, now) {
                r matches Err(e) && e@ == token_refused_error()
            } else {
                r == Ok::<TempOAuthClaims, AppError>(c)
            },
            None => r matches Err(e) && e@ == token_refused_error(),
        },
{
    match decoded {
        Some(c) => {
            if now >= EXPIRY_LEEWAY_SECS && c.exp < now - EXPIRY_LEEWAY_SECS {
                Err(ExternalFailure::TokenDecoding.to_app_error())
            } else {
                Ok(c)
            }
        },
        None => Err(ExternalFailure::TokenDecoding.to_app_error()),
    }
}

/// Reads a temporary token at `now`: its claims where its signature checks
/// with `secret`, it has the claims of a temporary token and has not expired;
/// otherwise a `401` error. A text with fewer than two dots is refused.
pub fn decode_temp_oauth_token(secret: &str, token: &str, now: u64) -> (r: Result<TempOAuthClaims, AppError>)
    ensures
        match r {
            Ok(c) => live_temp_claims(secret@, token@, now) == Some(temp_claims_view(c)),
            Err(e) => live_temp_claims(secret@, token@, now) is None && e@ == token_refused_error(),
        },
        dot_count(token@) < 2 ==> r is Err,
{
    unexpired_claims(decode_claims(secret, token), now)
}

} // verus!
