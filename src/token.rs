//! Token service: issues and validates signed session tokens that bind a
//! user id to an expiry instant (HS256 JSON Web Tokens).

use vstd::prelude::*;
use crate::error::AuthError;
use crate::model::User;

verus! {

#[verifier::external_type_specification]
#[verifier::external_body]
pub struct ExJwtError(jsonwebtoken::errors::Error);

/// Lifetime of a session token: seven days, in seconds. A fixed policy.
pub const TOKEN_LIFETIME: i64 = 604800;

/// The claims of a session token: the subject (a user id in UUID text form)
/// and the expiry instant, in seconds since the epoch.
#[derive(Debug, Clone)]
pub struct Claims {
    pub sub: String,
    pub exp: i64,
}

/// The canonical (hyphenated, lower-case) text of a UUID value.
pub uninterp spec fn uuid_text_of(id: u128) -> Seq<char>;

/// The UUID value that a text denotes, if it denotes one.
pub uninterp spec fn uuid_parse_of(text: Seq<char>) -> Option<u128>;

/// The HS256 token that encodes the claims `{sub, exp}` signed with `secret`.
pub uninterp spec fn jwt_encoding_of(sub: Seq<char>, exp: i64, secret: Seq<char>) -> Seq<char>;

/// The claims `(sub, exp)` that `jsonwebtoken::decode` under HS256 with
/// `secret` reads from `token`, with its own expiry check off. `None` when
/// the structure or signature does not check out, and also for a signed
/// token that carries an `aud` claim, whose `exp` is missing, negative or not
/// an integer, or whose `sub` is not a string.
pub uninterp spec fn jwt_claims_of(token: Seq<char>, secret: Seq<char>) -> Option<(Seq<char>, i64)>;

/// Relies on uuid::Uuid's `Display`: the hyphenated lower-case text, which
/// `Uuid::parse_str` reads back as the same value.
#[verifier::external_body]
fn uuid_text(id: u128) -> (r: String)
    ensures
        r@ == uuid_text_of(id),
        uuid_parse_of(r@) == Some(id),
{
    uuid::Uuid::from_u128(id).to_string()
}

/// Relies on uuid::Uuid::parse_str: the value of a UUID text, or an error.
#[verifier::external_body]
fn uuid_parse(text: &str) -> (r: Option<u128>)
    ensures
        r == uuid_parse_of(text@),
{
    uuid::Uuid::parse_str(text).ok().map(|u| u.as_u128())
}

/// Relies on jsonwebtoken::encode with the default (HS256) header: it
/// serialises the claims, signs them with the secret, and `decode` with the
/// same secret gives those claims back (an `exp` must be non-negative to be
/// read back as a timestamp). It does not fail here: the key made by
/// `EncodingKey::from_secret` is of the HMAC family that the header names,
/// serialising a JSON map cannot fail, and HMAC signing always succeeds.
#[verifier::external_body]
fn jwt_encode(claims: &Claims, secret: &str) -> (r: Result<String, jsonwebtoken::errors::Error>)
    ensures
        r is Ok,
        r is Ok ==> r->Ok_0@ == jwt_encoding_of(claims.sub@, claims.exp, secret@),
        r is Ok && claims.exp >= 0 ==> jwt_claims_of(r->Ok_0@, secret@) == Some(
            (claims.sub@, claims.exp),
        ),
{
    let mut map = serde_json::Map::new();
    map.insert("sub".to_string(), serde_json::Value::from(claims.sub.as_str()));
    map.insert("exp".to_string(), serde_json::Value::from(claims.exp));
    let key = jsonwebtoken::EncodingKey::from_secret(secret.as_bytes());
    jsonwebtoken::encode(&jsonwebtoken::Header::default(), &map, &key)
}

/// Relies on jsonwebtoken::decode under HS256, with its own expiry check
/// switched off: the claims of a token whose structure and signature check
/// out, `None` otherwise.
#[verifier::external_body]
fn jwt_decode(token: &str, secret: &str) -> (r: Option<Claims>)
    ensures
        match r {
            Some(c) => jwt_claims_of(token@, secret@) == Some((c.sub@, c.exp)),
            None => jwt_claims_of(token@, secret@) is None,
        },
{
    let mut validation = jsonwebtoken::Validation::new(jsonwebtoken::Algorithm::HS256);
    validation.validate_exp = false;
    let key = jsonwebtoken::DecodingKey::from_secret(secret.as_bytes());
    let data = jsonwebtoken::decode::<serde_json::Map<String, serde_json::Value>>(token, &key, &validation).ok()?;
    let sub = data.claims.get("sub")?.as_str()?.to_string();
    let exp = data.claims.get("exp")?.as_i64()?;
    Some(Claims { sub, exp })
}

/// The token issued at `now` for the user `id`.
pub open spec fn issued_token(id: u128, secret: Seq<char>, now: i64) -> Seq<char> {
    jwt_encoding_of(uuid_text_of(id), (now + TOKEN_LIFETIME) as i64, secret)
}

/// `token`, decoded under `secret`, carries exactly the claims of a token
/// for the user `id` that expires at `expires_at`: the id's UUID text and
/// that instant.
pub open spec fn carries_claims(token: Seq<char>, secret: Seq<char>, id: u128, expires_at: i64) -> bool {
    jwt_claims_of(token, secret) == Some((uuid_text_of(id), expires_at))
}

/// `token`, checked under `secret`, names the user `id` and expires at
/// `expires_at`.
pub open spec fn token_binds(token: Seq<char>, secret: Seq<char>, id: u128, expires_at: i64) -> bool {
    match jwt_claims_of(token, secret) {
        Some((sub, exp)) => exp == expires_at && uuid_parse_of(sub) == Some(id),
        None => false,
    }
}

/// The outcome of validating `token` under `secret` at the instant `now`.
pub open spec fn token_verdict(token: Seq<char>, secret: Seq<char>, now: i64) -> Result<u128, AuthError> {
    match jwt_claims_of(token, secret) {
        None => Err(AuthError::InvalidToken),
        Some((sub, exp)) => if exp <= now {
            Err(AuthError::ExpiredToken)
        } else {
            match uuid_parse_of(sub) {
                Some(id) => Ok(id),
                None => Err(AuthError::InvalidToken),
            }
        },
    }
}

impl Claims {
    /// The claims of a token issued at `now` for the user `id`.
    pub fn for_user(id: u128, now: i64) -> (r: Claims)
        requires
            now <= i64::MAX - TOKEN_LIFETIME,
        ensures
            r.sub@ == uuid_text_of(id),
            uuid_parse_of(r.sub@) == Some(id),
            r.exp == now + TOKEN_LIFETIME,
    {
        Claims { sub: uuid_text(id), exp: now + TOKEN_LIFETIME }
    }
}

/// Issues a session token for `user` at the instant `now`: it carries the
/// user's id in UUID text and expires seven days later. Signing does not
/// fail, so the result is always `Ok`, and it depends on the id, the instant
/// and the secret alone.
pub fn create_jwt(user: &User, secret: &str, now: i64) -> (r: Result<String, AuthError>)
    requires
        now <= i64::MAX - TOKEN_LIFETIME,
    ensures
        r is Ok,
        match r {
            Ok(t) => t@ == issued_token(user.id, secret@, now) && (now + TOKEN_LIFETIME >= 0
                ==> carries_claims(t@, secret@, user.id, (now + TOKEN_LIFETIME) as i64)
                && token_binds(t@, secret@, user.id, (now + TOKEN_LIFETIME) as i64)),
            Err(e) => e == AuthError::InternalServerError,
        },
{
    let claims = Claims::for_user(user.id, now);
    match jwt_encode(&claims, secret) {
        Ok(t) => Ok(t),
        Err(_) => Err(AuthError::InternalServerError),
    }
}

/// Validates a session token at the instant `now` and returns the user id it
/// names. A bad structure or signature, or a subject that is no user id, is
/// `InvalidToken`; an expiry instant at or before `now` is `ExpiredToken`.
pub fn verify_jwt(token: &str, secret: &str, now: i64) -> (r: Result<u128, AuthError>)
    ensures
        r == token_verdict(token@, secret@, now),
{
    match jwt_decode(token, secret) {
        None => Err(AuthError::InvalidToken),
        Some(c) => {
            if c.exp <= now {
                Err(AuthError::ExpiredToken)
            } else {
                match uuid_parse(c.sub.as_str()) {
                    Some(id) => Ok(id),
                    None => Err(AuthError::InvalidToken),
                }
            }
        },
    }
}

/// A token issued at `issued_at` is valid at every instant before
/// `issued_at` plus seven days, and expired from that instant on: no grace
/// window.
pub proof fn lemma_token_lifetime(token: Seq<char>, secret: Seq<char>, id: u128, issued_at: i64, now: i64)
    requires
        issued_at <= i64::MAX - TOKEN_LIFETIME,
        token_binds(token, secret, id, (issued_at + TOKEN_LIFETIME) as i64),
    ensures
        now < issued_at + TOKEN_LIFETIME ==> token_verdict(token, secret, now) == Ok::<u128, AuthError>(id),
        now >= issued_at + TOKEN_LIFETIME ==> token_verdict(token, secret, now) == Err::<u128, AuthError>(AuthError::ExpiredToken),
{
}

/// A token that does not check out under a secret (another secret, or an
/// altered payload or signature) never resolves to a user id.
pub proof fn lemma_unverifiable_token_rejected(token: Seq<char>, secret: Seq<char>, now: i64)
    requires
        jwt_claims_of(token, secret) is None,
    ensures
        token_verdict(token, secret, now) == Err::<u128, AuthError>(AuthError::InvalidToken),
{
}

} // verus!
