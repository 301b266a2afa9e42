//! Stateless bearer tokens: a signed claim set binding a public user
//! identifier (`sub`) to an absolute expiry (`exp`, unix seconds). Signing
//! and signature checking are done by the jsonwebtoken crate; the expiry
//! comparison and the identifier check are verified here, against an
//! explicit clock value.

use vstd::prelude::*;
use crate::config::Config;
use crate::errors::AppError;
use crate::pid::{uuid_parsed_of, uuid_str_of, Pid};

verus! {

/// The claim set this core embeds in a token.
pub struct UserClaims {
    pub sub: String,
    pub exp: u64,
}

/// The signed compact token that `jsonwebtoken::encode` produces for the
/// claims (`sub`, `exp`) under `secret` with its default header.
pub uninterp spec fn token_of(sub: Seq<char>, exp: u64, secret: Seq<char>) -> Seq<char>;

/// What `jsonwebtoken::decode` recovers from a token under `secret`, with
/// expiry checking turned off: `None` when the structure, signature or
/// algorithm header is rejected; `Some(None)` when the payload lacks a
/// string `sub` or an integer `exp`; otherwise the two claims.
pub uninterp spec fn claims_of(token: Seq<char>, secret: Seq<char>) -> Option<
    Option<(Seq<char>, u64)>,
>;

/// Relies on `jsonwebtoken::encode` with the default (HS256) header: the
/// token is a function of the claims and the secret, and `jsonwebtoken::decode`
/// under the same secret recovers exactly the embedded claims. Encoding
/// cannot fail here: an HMAC key accepts any secret length, signing is
/// infallible, and the two-key claim map always serializes.
#[verifier::external_body]
pub fn encode_user_claims(user_claims: &UserClaims, secret: &str) -> (r: Result<String, AppError>)
    ensures
        r is Ok,
        r matches Ok(t) ==> {
            &&& t@ == token_of(user_claims.sub@, user_claims.exp, secret@)
            &&& claims_of(t@, secret@) == Some(Some((user_claims.sub@, user_claims.exp)))
            &&& t@.len() > 0
        },
{
    let mut m = serde_json::Map::new();
    m.insert("sub".to_string(), serde_json::Value::String(user_claims.sub.clone()));
    m.insert("exp".to_string(), serde_json::Value::from(user_claims.exp));
    let key = jsonwebtoken::EncodingKey::from_secret(secret.as_bytes());
    match jsonwebtoken::encode(&jsonwebtoken::Header::default(), &serde_json::Value::Object(m), &key)
    {
        Ok(t) => Ok(t),
        Err(_) => Err(AppError::InternalServerError),
    }
}

/// Relies on `jsonwebtoken::decode` for HS256 with expiry checking turned
/// off: deterministic in the token and the secret; rejects a malformed
/// structure, a wrong signature, or another algorithm.
#[verifier::external_body]
pub fn decode_user_claims(token: &str, secret: &str) -> (r: Option<Option<(String, u64)>>)
    ensures
        match r {
            None => claims_of(token@, secret@) is None,
            Some(None) => claims_of(token@, secret@) == Some(
                Option::<(Seq<char>, u64)>::None,
            ),
            Some(Some((sub, exp))) => claims_of(token@, secret@) == Some(Some((sub@, exp))),
        },
{
    let mut v = jsonwebtoken::Validation::new(jsonwebtoken::Algorithm::HS256);
    v.validate_exp = false;
    v.required_spec_claims = std::collections::HashSet::new();
    let key = jsonwebtoken::DecodingKey::from_secret(secret.as_bytes());
    match jsonwebtoken::decode::<serde_json::Value>(token, &key, &v) {
        Err(_) => None,
        Ok(data) => {
            let sub = data.claims.get("sub").and_then(|x| x.as_str()).map(|s| s.to_string());
            let exp = data.claims.get("exp").and_then(|x| x.as_u64());
            match (sub, exp) {
                (Some(s), Some(e)) => Some(Some((s, e))),
                _ => Some(None),
            }
        },
    }
}

/// Widest token lifetime this core accepts, in minutes.
pub const MAX_TTL_MINUTES: u64 = 100_000_000;

/// The absolute expiry a token issued at `now` with lifetime `ttl_minutes`
/// carries.
pub open spec fn expiry_at(now: i64, ttl_minutes: u64) -> u64
    recommends
        0 <= now,
        ttl_minutes <= MAX_TTL_MINUTES,
{
    (now + ttl_minutes * 60) as u64
}

/// Issues a token for `pid`, expiring `ttl_minutes` minutes after `now`.
/// Issuing always succeeds: signing with a symmetric secret has no failing
/// path.
pub fn issue_token(secret: &str, pid: &Pid, ttl_minutes: u64, now: i64) -> (r: Result<
    String,
    AppError,
>)
    requires
        pid.wf(),
        0 <= now,
        ttl_minutes <= MAX_TTL_MINUTES,
    ensures
        r matches Ok(t) && {
            &&& t@ == token_of(uuid_str_of(pid@), expiry_at(now, ttl_minutes), secret@)
            &&& claims_of(t@, secret@) == Some(
                Some((uuid_str_of(pid@), expiry_at(now, ttl_minutes))),
            )
            &&& uuid_parsed_of(uuid_str_of(pid@)) == Some(pid@)
            &&& t@.len() > 0
        },
{
    let sub = pid.to_uuid_string();
    let exp: u64 = (now as u64) + ttl_minutes * 60;
    let claims = UserClaims { sub, exp };
    encode_user_claims(&claims, secret)
}

/// What validating `token` under `secret` at time `now` yields: the embedded
/// identifier bytes, or the failure the token deserves. A malformed
/// signature, structure or algorithm header is `InvalidToken`; a passed
/// expiry or a claim that is no identifier is `Unauthorized`.
pub open spec fn spec_validate(token: Seq<char>, secret: Seq<char>, now: i64) -> Result<
    Seq<u8>,
    AppError,
> {
    match claims_of(token, secret) {
        None => Err(AppError::InvalidToken),
        Some(None) => Err(AppError::Unauthorized),
        Some(Some((sub, exp))) => {
            if exp <= now as u64 {
                Err(AppError::Unauthorized)
            } else {
                match uuid_parsed_of(sub) {
                    Some(b) => Ok(b),
                    None => Err(AppError::Unauthorized),
                }
            }
        },
    }
}

/// Checks a token's signature, expiry and subject claim, and resolves the
/// embedded public identifier.
pub fn validate_token(secret: &str, token: &str, now: i64) -> (r: Result<Pid, AppError>)
    requires
        0 <= now,
    ensures
        match r {
            Ok(p) => p.wf() && spec_validate(token@, secret@, now) == Ok::<_, AppError>(p@),
            Err(e) => spec_validate(token@, secret@, now) == Err::<Seq<u8>, _>(e),
        },
{
    match decode_user_claims(token, secret) {
        None => Err(AppError::InvalidToken),
        Some(None) => Err(AppError::Unauthorized),
        Some(Some((sub, exp))) => {
            if exp <= now as u64 {
                Err(AppError::Unauthorized)
            } else {
                match Pid::parse(sub.as_str()) {
                    Some(p) => Ok(p),
                    None => Err(AppError::Unauthorized),
                }
            }
        },
    }
}

/// Issues a token for the stringified identifier `user_pid` under the
/// configured secret, expiring `jwt_expiry_minute` minutes after the clock
/// value `now`. Always succeeds, and pins the expiry claim to
/// `now + 60 * jwt_expiry_minute`.
pub fn create_jwt_token(config: &Config, user_pid: &String, now: i64) -> (r: Result<
    String,
    AppError,
>)
    requires
        0 <= now,
        config.jwt_expiry_minute <= MAX_TTL_MINUTES,
    ensures
        r matches Ok(t) && {
            &&& t@ == token_of(user_pid@, expiry_at(now, config.jwt_expiry_minute), config.jwt_secret@)
            &&& claims_of(t@, config.jwt_secret@) == Some(
                Some((user_pid@, expiry_at(now, config.jwt_expiry_minute))),
            )
            &&& t@.len() > 0
        },
{
    let exp: u64 = (now as u64) + config.jwt_expiry_minute * 60;
    let claims = UserClaims { sub: user_pid.clone(), exp };
    encode_user_claims(&claims, config.jwt_secret.as_str())
}

/// A token issued with a lifetime of `ttl_minutes` still validates one
/// minute before its expiry and is refused as `Unauthorized` one minute
/// after it; both outcomes are forced by the contracts of issuing and
/// validation alone.
pub fn token_validity_window(secret: &str, pid: &Pid, ttl_minutes: u64, now: i64) -> (r: Result<
    (Result<Pid, AppError>, Result<Pid, AppError>),
    AppError,
>)
    requires
        pid.wf(),
        0 <= now,
        1 <= ttl_minutes <= MAX_TTL_MINUTES,
        now + (ttl_minutes + 1) * 60 <= i64::MAX,
    ensures
        r matches Ok((before, after)) && {
            &&& before matches Ok(p) && p@ == pid@
            &&& after == Err::<Pid, _>(AppError::Unauthorized)
        },
{
    let token = match issue_token(secret, pid, ttl_minutes, now) {
        Ok(t) => t,
        Err(e) => {
            return Err(e);
        },
    };
    let just_before: i64 = now + (ttl_minutes - 1) as i64 * 60;
    let just_after: i64 = now + (ttl_minutes + 1) as i64 * 60;
    let before = validate_token(secret, token.as_str(), just_before);
    let after = validate_token(secret, token.as_str(), just_after);
    Ok((before, after))
}

} // verus!
